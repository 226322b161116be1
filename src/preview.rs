//! The preview of a rendered post: its first paragraph, or a hard cut.
use vstd::prelude::*;
use vstd::string::*;
use crate::text::{matches_at, occurs_at};

verus! {

/// The number of characters a preview holds at most, unless told otherwise.
pub const PREVIEW_CHARS: usize = 600;

/// The closing tag of a paragraph.
pub open spec fn close_tag() -> Seq<char> {
    "</p>"@
}

/// `i` is where the first closing paragraph tag of `html` starts.
pub open spec fn is_first_close(html: Seq<char>, i: int) -> bool {
    &&& occurs_at(html, close_tag(), i)
    &&& forall|j: int| 0 <= j < i ==> !occurs_at(html, close_tag(), j)
}

/// The first closing paragraph tag of `html` starts before position `n`.
pub open spec fn closes_within(html: Seq<char>, n: nat) -> bool {
    exists|i: int| is_first_close(html, i) && i < n
}

/// The preview of `html` for `n` characters: everything up to and
/// including the first `</p>` where that tag starts before position `n`,
/// else the first `n` characters (which may cut a tag).
pub open spec fn preview_of(html: Seq<char>, n: nat) -> Seq<char> {
    if closes_within(html, n) {
        let i = choose|i: int| is_first_close(html, i);
        html.subrange(0, i + 4)
    } else if html.len() <= n {
        html
    } else {
        html.subrange(0, n as int)
    }
}

/// There is at most one first closing tag.
pub proof fn lemma_first_close_unique(html: Seq<char>, i: int, k: int)
    requires
        is_first_close(html, i),
        is_first_close(html, k),
    ensures
        i == k,
{
    if i < k {
        assert(!occurs_at(html, close_tag(), i));
    } else if k < i {
        assert(!occurs_at(html, close_tag(), k));
    }
}

/// A preview is a prefix of the document, and never runs more than the
/// rest of one closing tag past `n`.
pub proof fn lemma_preview_is_bounded_prefix(html: Seq<char>, n: nat)
    ensures
        preview_of(html, n).len() <= n + 3,
        preview_of(html, n).len() <= html.len(),
        preview_of(html, n) == html.subrange(0, preview_of(html, n).len() as int),
{
    reveal_strlit("</p>");
    if closes_within(html, n) {
        let k = choose|k: int| is_first_close(html, k) && k < n;
        let i = choose|i: int| is_first_close(html, i);
        lemma_first_close_unique(html, i, k);
        assert(html.subrange(0, i + 4) =~= html.subrange(0, preview_of(html, n).len() as int));
    } else if html.len() <= n {
        assert(html =~= html.subrange(0, html.len() as int));
    } else {
        assert(html.subrange(0, n as int) =~= html.subrange(0, preview_of(html, n).len() as int));
    }
}

/// A document whose first `</p>` starts at `i`, before position `n`, is
/// previewed up to and including that tag; a document with no such tag is
/// cut to at most `n` characters.
pub proof fn lemma_preview_truncation(html: Seq<char>, n: nat, i: int)
    ensures
        is_first_close(html, i) && i < n ==> preview_of(html, n) == html.subrange(0, i + 4),
        !closes_within(html, n) ==> preview_of(html, n).len() <= n,
{
    reveal_strlit("</p>");
    if is_first_close(html, i) && i < n {
        assert(closes_within(html, n));
        let c = choose|c: int| is_first_close(html, c);
        lemma_first_close_unique(html, i, c);
    }
    lemma_preview_is_bounded_prefix(html, n);
}

/// Cuts rendered HTML down to a preview of at most `n` characters.
pub fn truncate_preview(html: &str, n: usize) -> (r: String)
    ensures
        r@ == preview_of(html@, n as nat),
{
    proof {
        reveal_strlit("</p>");
    }
    let len = html.unicode_len();
    let limit = if len < n { len } else { n };
    let mut i: usize = 0;
    while i < limit
        invariant
            len == html@.len(),
            limit <= len,
            limit <= n,
            limit == len || limit == n,
            close_tag().len() == 4,
            i <= limit,
            forall|j: int| 0 <= j < i ==> !occurs_at(html@, close_tag(), j),
        decreases limit - i,
    {
        if matches_at(html, "</p>", i) {
            proof {
                assert(is_first_close(html@, i as int));
                let c = choose|c: int| is_first_close(html@, c);
                lemma_first_close_unique(html@, i as int, c);
            }
            return String::from_str(html.substring_char(0, i + 4));
        }
        i = i + 1;
    }
    proof {
        if closes_within(html@, n as nat) {
            let k = choose|k: int| is_first_close(html@, k) && k < n;
            assert(k < limit);
            assert(!occurs_at(html@, close_tag(), k));
        }
    }
    if len <= n {
        String::from_str(html)
    } else {
        String::from_str(html.substring_char(0, n))
    }
}

} // verus!
