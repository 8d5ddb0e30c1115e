//! Text decoding and line splitting for the chunked stream: one trusted
//! UTF-8 decoding step, and verified scanning of the reassembled text
//! for complete lines.

use vstd::prelude::*;
use vstd::string::StrSliceExecFns;

verus! {

/// The characters this byte chunk decodes to as UTF-8, or `None` where
/// it is not valid UTF-8.
pub uninterp spec fn utf8_text(b: Seq<u8>) -> Option<Seq<char>>;

/// Relies on std::str::from_utf8: decodes a byte chunk, `None` on
/// invalid UTF-8; deterministic in the bytes.
#[verifier::external_body]
pub fn chunk_text(b: &[u8]) -> (r: Option<String>)
    ensures
        (r matches Some(t) ==> utf8_text(b@) == Some(t@)),
        (r is None ==> utf8_text(b@) is None),
{
    std::str::from_utf8(b).ok().map(|t| t.to_owned())
}

/// The position of the first line break in the text, if any.
pub open spec fn first_newline(s: Seq<char>) -> Option<int>
    decreases s.len(),
{
    if s.len() == 0 {
        None
    } else if s[0] == '\n' {
        Some(0)
    } else {
        match first_newline(s.skip(1)) {
            Some(i) => Some(i + 1),
            None => None,
        }
    }
}

pub proof fn lemma_first_newline(s: Seq<char>)
    ensures
        match first_newline(s) {
            Some(i) => 0 <= i < s.len() && s[i] == '\n' && (forall|j: int|
                0 <= j < i ==> s[j] != '\n'),
            None => forall|j: int| 0 <= j < s.len() ==> s[j] != '\n',
        },
    decreases s.len(),
{
    if s.len() != 0 && s[0] != '\n' {
        let t = s.skip(1);
        lemma_first_newline(t);
        match first_newline(t) {
            Some(i) => {
                assert(s[i + 1] == t[i]);
                assert forall|j: int| 0 <= j < i + 1 implies s[j] != '\n' by {
                    if j > 0 {
                        assert(t[j - 1] == s[j]);
                        assert(t[j - 1] != '\n');
                    }
                }
            },
            None => {
                assert forall|j: int| 0 <= j < s.len() implies s[j] != '\n' by {
                    if j > 0 {
                        assert(t[j - 1] == s[j]);
                        assert(t[j - 1] != '\n');
                    }
                }
            },
        }
    }
}

/// Where some position holds a line break and none before it does, that
/// is the first line break.
pub proof fn lemma_first_newline_at(s: Seq<char>, i: int)
    requires
        0 <= i < s.len(),
        s[i] == '\n',
        forall|j: int| 0 <= j < i ==> s[j] != '\n',
    ensures
        first_newline(s) == Some(i),
{
    lemma_first_newline(s);
    match first_newline(s) {
        Some(k) => {
            if k < i {
                assert(s[k] != '\n');
            }
            if k > i {
                assert(s[i] != '\n');
            }
        },
        None => {
            assert(s[i] != '\n');
        },
    }
}

/// Scans the text for its first line break.
pub fn find_newline(s: &String) -> (r: Option<usize>)
    ensures
        match r {
            Some(i) => first_newline(s@) == Some(i as int),
            None => first_newline(s@) is None,
        },
{
    let n = s.as_str().unicode_len();
    let mut i: usize = 0;
    while i < n
        invariant
            0 <= i <= n,
            n == s@.len(),
            forall|j: int| 0 <= j < i ==> s@[j] != '\n',
        decreases n - i,
    {
        if s.as_str().get_char(i) == '\n' {
            proof {
                lemma_first_newline_at(s@, i as int);
            }
            return Some(i);
        }
        i = i + 1;
    }
    proof {
        lemma_first_newline(s@);
        match first_newline(s@) {
            Some(k) => {
                assert(s@[k] != '\n');
            },
            None => {},
        }
    }
    None
}

/// A complete line as handed to the record decoder: the text before the
/// break, less one trailing carriage return.
pub open spec fn line_body(s: Seq<char>) -> Seq<char> {
    if s.len() > 0 && s[s.len() - 1] == '\r' {
        s.take(s.len() - 1)
    } else {
        s
    }
}

/// Splits the buffered text at a known line break: the completed line
/// (without the break and without one trailing carriage return) and the
/// text after the break.
pub fn split_at_newline(s: &String, i: usize) -> (r: (String, String))
    requires
        first_newline(s@) == Some(i as int),
    ensures
        r.0@ == line_body(s@.take(i as int)),
        r.1@ == s@.skip(i as int + 1),
{
    proof {
        lemma_first_newline(s@);
    }
    let n = s.as_str().unicode_len();
    let mut end: usize = i;
    if i > 0 {
        if s.as_str().get_char(i - 1) == '\r' {
            end = i - 1;
        }
    }
    let line = s.as_str().substring_char(0, end).to_owned();
    let rest = s.as_str().substring_char(i + 1, n).to_owned();
    proof {
        assert(s@.take(i as int).len() == i);
        assert(line@ =~= line_body(s@.take(i as int)));
        assert(rest@ =~= s@.skip(i as int + 1));
    }
    (line, rest)
}

} // verus!
