//! The arguments of the service attribute: nothing, or the word `local`.
use vstd::prelude::*;
use crate::model::GenerationError;

verus! {

/// Attribute arguments: `local` asks for single-context code.
#[derive(Debug, Clone, Copy, PartialEq, Eq)]
pub struct Args {
    pub local: bool,
}

pub open spec fn is_space(c: char) -> bool {
    c == ' ' || c == '\t' || c == '\n' || c == '\r'
}

/// `s` without its leading white space.
pub open spec fn trim_start(s: Seq<char>) -> Seq<char>
    decreases s.len(),
{
    if s.len() > 0 && is_space(s[0]) {
        trim_start(s.drop_first())
    } else {
        s
    }
}

/// `s` without its trailing white space.
pub open spec fn trim_end(s: Seq<char>) -> Seq<char>
    decreases s.len(),
{
    if s.len() > 0 && is_space(s.last()) {
        trim_end(s.drop_last())
    } else {
        s
    }
}

/// What the arguments say once the white space round them is gone.
pub open spec fn args_word(s: Seq<char>) -> Seq<char> {
    trim_end(trim_start(s))
}

/// The arguments that `input` stands for, if it is well formed.
pub open spec fn args_of(input: Seq<char>) -> Result<Args, GenerationError> {
    if args_word(input).len() == 0 {
        Ok(Args { local: false })
    } else if args_word(input) == "local"@ {
        Ok(Args { local: true })
    } else {
        Err(GenerationError::InvalidArguments)
    }
}

fn space(c: char) -> (r: bool)
    ensures
        r == is_space(c),
{
    c == ' ' || c == '\t' || c == '\n' || c == '\r'
}

impl Args {
    /// Reads the attribute arguments: empty (or white space) gives
    /// `local == false`, the word `local` gives `local == true`, anything
    /// else is refused.
    pub fn parse(input: &str) -> (r: Result<Args, GenerationError>)
        ensures
            r == args_of(input@),
    {
        let n = input.unicode_len();
        let ghost s = input@;
        let mut i: usize = 0;
        assert(s.subrange(0, n as int) =~= s);
        while i < n && space(input.get_char(i))
            invariant
                n == s.len(),
                s == input@,
                i <= n,
                trim_start(s) == trim_start(s.subrange(i as int, n as int)),
            decreases n - i,
        {
            assert(s.subrange(i as int, n as int).drop_first() =~= s.subrange(i + 1, n as int));
            i = i + 1;
        }
        assert(trim_start(s) == s.subrange(i as int, n as int));
        let mut j: usize = n;
        while j > i && space(input.get_char(j - 1))
            invariant
                n == s.len(),
                s == input@,
                i <= j <= n,
                args_word(s) == trim_end(s.subrange(i as int, j as int)),
            decreases j,
        {
            assert(s.subrange(i as int, j as int).drop_last() =~= s.subrange(i as int, j - 1));
            j = j - 1;
        }
        let ghost w = s.subrange(i as int, j as int);
        assert(args_word(s) == w);
        proof {
            reveal_strlit("local");
        }
        if j == i {
            return Ok(Args { local: false });
        }
        if j - i != 5 {
            return Err(GenerationError::InvalidArguments);
        }
        let c0 = input.get_char(i);
        let c1 = input.get_char(i + 1);
        let c2 = input.get_char(i + 2);
        let c3 = input.get_char(i + 3);
        let c4 = input.get_char(i + 4);
        assert(w =~= seq![c0, c1, c2, c3, c4]);
        if c0 == 'l' && c1 == 'o' && c2 == 'c' && c3 == 'a' && c4 == 'l' {
            assert(w =~= "local"@);
            Ok(Args { local: true })
        } else {
            assert(w != "local"@) by {
                if w == "local"@ {
                    assert(w[0] == 'l' && w[1] == 'o' && w[2] == 'c' && w[3] == 'a' && w[4] == 'l');
                }
            }
            Err(GenerationError::InvalidArguments)
        }
    }
}

} // verus!
