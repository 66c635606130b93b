//! Digests of text fed line by line, without the line terminators.
use vstd::prelude::*;
use vstd::slice::slice_subrange;
use crate::algorithm::{Hashing, MAX_INPUT_LEN};
use crate::context::ring_digest;

verus! {

/// Whether the byte at `i` belongs to the content of a line: it is neither a
/// line feed nor a carriage return directly followed by a line feed.
pub open spec fn is_line_content(s: Seq<u8>, i: int) -> bool {
    s[i] != 10u8 && !(s[i] == 13u8 && i + 1 < s.len() && s[i + 1] == 10u8)
}

/// The line contents found among the first `n` bytes of `s`, in order.
pub open spec fn line_content_upto(s: Seq<u8>, n: int) -> Seq<u8>
    decreases n,
{
    if n <= 0 {
        Seq::empty()
    } else if is_line_content(s, n - 1) {
        line_content_upto(s, n - 1).push(s[n - 1])
    } else {
        line_content_upto(s, n - 1)
    }
}

/// The bytes of `s` with every line terminator (`\n` or `\r\n`) left out.
pub open spec fn line_content(s: Seq<u8>) -> Seq<u8> {
    line_content_upto(s, s.len() as int)
}

/// The line contents are never longer than the text they come from.
pub proof fn lemma_line_content_len(s: Seq<u8>, n: int)
    requires
        0 <= n <= s.len(),
    ensures
        line_content_upto(s, n).len() <= n,
    decreases n,
{
    if n > 0 {
        lemma_line_content_len(s, n - 1);
    }
}

/// Within a line that ends at `i` (a line feed, or the end of the text), the
/// bytes from `start` up to `k` are all line content, for every `k` before
/// the line's terminator.
proof fn lemma_line_prefix(s: Seq<u8>, start: int, i: int, k: int)
    requires
        0 <= start <= k <= i <= s.len(),
        forall|j: int| start <= j < i ==> s[j] != 10u8,
        i == s.len() || s[i] == 10u8,
        k < i || !(i < s.len() && i > start && s[i - 1] == 13u8),
        k <= i - 1 || !(i < s.len() && i > start && s[i - 1] == 13u8),
    ensures
        line_content_upto(s, k) == line_content_upto(s, start) + s.subrange(start, k),
    decreases k - start,
{
    if k == start {
        assert(s.subrange(start, k) =~= Seq::<u8>::empty());
        assert(line_content_upto(s, start) + Seq::<u8>::empty() =~= line_content_upto(s, start));
    } else {
        lemma_line_prefix(s, start, i, k - 1);
        assert(is_line_content(s, k - 1));
        assert(s.subrange(start, k) =~= s.subrange(start, k - 1).push(s[k - 1]));
        assert(line_content_upto(s, k) =~= line_content_upto(s, start) + s.subrange(start, k));
    }
}

/// A line from `start` to `i` adds exactly its content, without its
/// terminator, to the line contents seen so far.
proof fn lemma_line(s: Seq<u8>, start: int, i: int, end: int)
    requires
        0 <= start <= i <= s.len(),
        forall|j: int| start <= j < i ==> s[j] != 10u8,
        i == s.len() || s[i] == 10u8,
        end == (if i < s.len() && i > start && s[i - 1] == 13u8 { i - 1 } else { i }),
    ensures
        line_content_upto(s, i) == line_content_upto(s, start) + s.subrange(start, end),
        i < s.len() ==> line_content_upto(s, i + 1) == line_content_upto(s, i),
{
    lemma_line_prefix(s, start, i, end);
    if end < i {
        assert(!is_line_content(s, i - 1));
    }
}

impl Hashing {
    /// Returns the digest of the lines of `content`, fed one after another
    /// without their terminators. A line ends at a line feed, which is dropped
    /// together with a carriage return directly before it; the last line
    /// needs no terminator. The digest equals that of the raw bytes only
    /// when `content` holds no line feed.
    pub fn hash_lines(&self, content: &[u8]) -> (r: crate::context::Hash)
        requires
            content@.len() <= MAX_INPUT_LEN,
        ensures
            r@ == ring_digest(*self, line_content(content@)),
            r@.len() == self.output_len(),
    {
        let ghost s = content@;
        let mut ctx = self.new_context();
        let n = content.len();
        let mut start: usize = 0;
        let mut i: usize = 0;
        while i < n
            invariant
                start <= i <= n,
                n == s.len(),
                s == content@,
                ctx.algorithm() == *self,
                ctx.input() == line_content_upto(s, start as int),
                forall|j: int| start <= j < i ==> s[j] != 10u8,
            decreases n - i,
        {
            if content[i] == 10u8 {
                let end: usize = if i > start && content[i - 1] == 13u8 {
                    i - 1
                } else {
                    i
                };
                proof {
                    lemma_line(s, start as int, i as int, end as int);
                }
                ctx.update(slice_subrange(content, start, end));
                start = i + 1;
            }
            i = i + 1;
        }
        if start < n {
            proof {
                lemma_line(s, start as int, n as int, n as int);
            }
            ctx.update(slice_subrange(content, start, n));
        }
        proof {
            lemma_line_content_len(s, n as int);
        }
        ctx.finish()
    }
}

} // verus!
