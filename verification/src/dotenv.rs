//! Parsing of dotenv (`.env`) lines.
//!
//! Each line has the form `KEY=VALUE`; blank lines are skipped, and a
//! non-blank line without `=` is a fatal parse error reporting its 1-based
//! line number.

use vstd::prelude::*;

use crate::bindings::Bindings;
use crate::text::{chars_of, string_from_chars};

verus! {

use vstd::slice::slice_subrange;

/// The position of the first `=` in `l`, or `l.len()` when there is none.
pub open spec fn eq_pos(l: Seq<char>) -> int
    decreases l.len(),
{
    if l.len() == 0 {
        0
    } else if l[0] == '=' {
        0
    } else {
        1 + eq_pos(l.drop_first())
    }
}

/// A line is well-formed when it is blank or holds an `=`.
pub open spec fn line_ok(l: Seq<char>) -> bool {
    l.len() == 0 || eq_pos(l) < l.len()
}

/// The bindings contributed by the given lines: for every non-blank line, the
/// text before its first `=` bound to the text after it.
pub open spec fn dotenv_pairs(ls: Seq<Seq<char>>) -> Seq<(Seq<char>, Seq<char>)>
    decreases ls.len(),
{
    if ls.len() == 0 {
        Seq::empty()
    } else {
        let l = ls.last();
        dotenv_pairs(ls.drop_last()) + (if l.len() == 0 {
            Seq::empty()
        } else {
            seq![(l.take(eq_pos(l)), l.skip(eq_pos(l) + 1))]
        })
    }
}

/// `eq_pos` is the first position holding `=`: no earlier position holds one,
/// and position `j` holds one unless the line has none at all.
proof fn lemma_eq_pos(l: Seq<char>, j: int)
    requires
        0 <= j <= l.len(),
        forall|m: int| 0 <= m < j ==> l[m] != '=',
        j < l.len() ==> l[j] == '=',
    ensures
        eq_pos(l) == j,
    decreases j,
{
    if l.len() == 0 {
    } else if j == 0 {
        if l.len() > 0 && l[0] != '=' {
            assert(j < l.len());
        }
    } else {
        assert(l[0] != '=');
        lemma_eq_pos(l.drop_first(), j - 1);
    }
}

/// Parse dotenv lines into environment bindings.
///
/// Succeeds exactly when every non-blank line holds an `=`; the reported
/// number is the 1-based number of the first offending line, and the
/// resulting bindings are, in order, the `KEY=VALUE` splits of the non-blank
/// lines.
pub fn parse_dotenv(lines: &Vec<String>) -> (r: Result<Bindings<String>, usize>)
    ensures
        r is Ok <==> (forall|i: int| 0 <= i < lines@.len() ==> line_ok(#[trigger] lines@[i]@)),
        r matches Ok(b) ==> b.pairs@.map_values(|p: (String, String)| (p.0@, p.1@))
            == dotenv_pairs(lines@.map_values(|l: String| l@)),
        r matches Err(n) ==> 1 <= n <= lines@.len() && !line_ok(lines@[n - 1]@) && (forall|m: int|
            0 <= m < n - 1 ==> line_ok(#[trigger] lines@[m]@)),
{
    let ghost lmodels = lines@.map_values(|l: String| l@);
    let mut out: Bindings<String> = Bindings::new();
    let mut i: usize = 0;
    while i < lines.len()
        invariant
            i <= lines@.len(),
            lmodels == lines@.map_values(|l: String| l@),
            forall|m: int| 0 <= m < i ==> line_ok(#[trigger] lines@[m]@),
            out.pairs@.map_values(|p: (String, String)| (p.0@, p.1@)) == dotenv_pairs(
                lmodels.take(i as int),
            ),
        decreases lines@.len() - i,
    {
        let cs = chars_of(lines[i].as_str());
        if cs.len() > 0 {
            let mut j: usize = 0;
            while j < cs.len() && cs[j] != '='
                invariant
                    j <= cs@.len(),
                    forall|m: int| 0 <= m < j ==> cs@[m] != '=',
                decreases cs@.len() - j,
            {
                j = j + 1;
            }
            proof {
                lemma_eq_pos(cs@, j as int);
            }
            if j == cs.len() {
                proof {
                    assert(!line_ok(lines@[i as int]@));
                }
                return Err(i + 1);
            }
            let key = string_from_chars(slice_subrange(cs.as_slice(), 0, j));
            let value = string_from_chars(slice_subrange(cs.as_slice(), j + 1, cs.len()));
            out.push(key, value);
        }
        i = i + 1;
        proof {
            assert(lmodels.take(i as int).drop_last() =~= lmodels.take(i - 1));
            assert(lmodels.take(i as int).last() == lines@[i - 1]@);
            assert(out.pairs@.map_values(|p: (String, String)| (p.0@, p.1@)) =~= dotenv_pairs(
                lmodels.take(i as int),
            ));
        }
    }
    proof {
        assert(lmodels.take(lines@.len() as int) =~= lmodels);
    }
    Ok(out)
}

} // verus!
