//! Splicing a request's arguments into an install script.
//!
//! The script sources start with a comment block (shebang and headers).  The
//! arguments are handed to the script through one `eval set -- … "$@"` line
//! placed directly after that block; a pre-existing `eval` line there is
//! replaced, anything else is kept below the new line.  Reading the script
//! sources from disk is the caller's concern.

use vstd::prelude::*;

use crate::text::{has_prefix, split_on, split_str, str_has_prefix};

verus! {

/// The segments of `s` between occurrences of `sep`, a final terminator
/// producing no empty segment, as `str::split_terminator` has it.
pub open spec fn split_terminated(s: Seq<char>, sep: char) -> Seq<Seq<char>> {
    if s.len() == 0 {
        Seq::empty()
    } else if s.last() == sep {
        split_on(s.drop_last(), sep)
    } else {
        split_on(s, sep)
    }
}

/// The line that hands the arguments to the script.
pub open spec fn eval_args_line(args: Seq<char>) -> Seq<char> {
    "eval set -- "@ + args + " \"$@\""@
}

/// The script's lines with the argument line spliced in: comment lines pass
/// through; the first other line is preceded by the argument line, or
/// replaced by it when it is itself an `eval` line; everything after is
/// untouched.  A script of comments only is left as it is.
pub open spec fn splice_lines(ls: Seq<Seq<char>>, args: Seq<char>) -> Seq<Seq<char>>
    decreases ls.len(),
{
    if ls.len() == 0 {
        Seq::empty()
    } else if has_prefix(ls[0], "#"@) {
        seq![ls[0]] + splice_lines(ls.drop_first(), args)
    } else if has_prefix(ls[0], "eval"@) {
        seq![eval_args_line(args)] + ls.drop_first()
    } else {
        seq![eval_args_line(args), ls[0]] + ls.drop_first()
    }
}

/// Lines joined with a newline between each pair.
pub open spec fn join_lines(ls: Seq<Seq<char>>) -> Seq<char>
    decreases ls.len(),
{
    if ls.len() == 0 {
        Seq::empty()
    } else if ls.len() == 1 {
        ls[0]
    } else {
        ls[0] + "\n"@ + join_lines(ls.drop_first())
    }
}

/// The finished script: unchanged without arguments, else split into lines,
/// spliced, and joined again.
pub open spec fn spliced_script(data: Seq<char>, args: Seq<char>) -> Seq<char> {
    join_lines(splice_lines(split_terminated(data, '\n'), args))
}

proof fn lemma_join_lines_push(ls: Seq<Seq<char>>, x: Seq<char>)
    ensures
        join_lines(ls.push(x)) == if ls.len() == 0 {
            x
        } else {
            join_lines(ls) + "\n"@ + x
        },
    decreases ls.len(),
{
    if ls.len() > 0 {
        lemma_join_lines_push(ls.drop_first(), x);
        assert(ls.push(x).drop_first() =~= ls.drop_first().push(x));
        if ls.len() > 1 {
            assert(ls[0] + "\n"@ + (join_lines(ls.drop_first()) + "\n"@ + x) =~= (ls[0] + "\n"@
                + join_lines(ls.drop_first())) + "\n"@ + x);
        }
    }
}

/// Split `s` on `sep`, a final terminator producing no empty segment.
pub fn split_terminated_str(s: &str, sep: char) -> (r: Vec<String>)
    ensures
        r.deep_view() == split_terminated(s@, sep),
{
    let n = s.unicode_len();
    if n == 0 {
        let r: Vec<String> = Vec::new();
        proof {
            assert(r.deep_view() =~= split_terminated(s@, sep));
        }
        r
    } else if s.get_char(n - 1) == sep {
        let trimmed = s.substring_char(0, n - 1);
        proof {
            assert(trimmed@ =~= s@.drop_last());
        }
        split_str(trimmed, sep)
    } else {
        split_str(s, sep)
    }
}

/// The `eval set -- … "$@"` line for the given arguments.
fn eval_line(args: &str) -> (r: String)
    ensures
        r@ == eval_args_line(args@),
{
    String::from_str("eval set -- ").concat(args).concat(" \"$@\"")
}

/// Build the install script from the script source `data`: splice the
/// argument line in after the leading comment block.
pub fn create_install_script(data: &str, args: &str) -> (r: String)
    ensures
        r@ == spliced_script(data@, args@),
{
    let parts = split_terminated_str(data, '\n');
    let ghost all = parts.deep_view();
    let mut lines: Vec<String> = Vec::new();
    let mut inserted = false;
    proof {
        assert(all.skip(0) =~= all);
        assert(lines.deep_view() + splice_lines(all, args@) =~= splice_lines(all, args@));
    }
    let mut i: usize = 0;
    while i < parts.len()
        invariant
            0 <= i <= parts@.len(),
            all == parts.deep_view(),
            all.len() == parts@.len(),
            lines.deep_view() + (if inserted {
                all.skip(i as int)
            } else {
                splice_lines(all.skip(i as int), args@)
            }) == splice_lines(all, args@),
        decreases parts@.len() - i,
    {
        let ghost suffix = all.skip(i as int);
        proof {
            assert(suffix[0] == parts@[i as int].deep_view());
            assert(suffix.drop_first() =~= all.skip(i + 1));
        }
        let line = &parts[i];
        let ghost prev = lines.deep_view();
        if !inserted {
            if str_has_prefix(line.as_str(), "#") {
                lines.push(line.clone());
                proof {
                    assert(lines.deep_view() =~= prev.push(suffix[0]));
                    assert(prev.push(suffix[0]) + splice_lines(suffix.drop_first(), args@)
                        =~= prev + splice_lines(suffix, args@));
                }
            } else if str_has_prefix(line.as_str(), "eval") {
                lines.push(eval_line(args));
                inserted = true;
                proof {
                    assert(lines.deep_view() =~= prev.push(eval_args_line(args@)));
                    assert(prev.push(eval_args_line(args@)) + suffix.drop_first() =~= prev
                        + splice_lines(suffix, args@));
                }
            } else {
                lines.push(eval_line(args));
                lines.push(line.clone());
                inserted = true;
                proof {
                    assert(lines.deep_view() =~= prev.push(eval_args_line(args@)).push(suffix[0]));
                    assert(prev.push(eval_args_line(args@)).push(suffix[0]) + suffix.drop_first()
                        =~= prev + splice_lines(suffix, args@));
                }
            }
        } else {
            lines.push(line.clone());
            proof {
                assert(lines.deep_view() =~= prev.push(suffix[0]));
                assert(prev.push(suffix[0]) + suffix.drop_first() =~= prev + suffix);
            }
        }
        i += 1;
    }
    proof {
        assert(all.skip(all.len() as int) =~= Seq::<Seq<char>>::empty());
        assert(splice_lines(Seq::<Seq<char>>::empty(), args@) =~= Seq::<Seq<char>>::empty());
        assert(lines.deep_view() + Seq::<Seq<char>>::empty() =~= lines.deep_view());
    }
    let ghost spliced = splice_lines(all, args@);
    let mut r = String::new();
    let mut j: usize = 0;
    proof {
        assert(lines.deep_view().take(0) =~= Seq::<Seq<char>>::empty());
    }
    while j < lines.len()
        invariant
            0 <= j <= lines@.len(),
            lines.deep_view() == spliced,
            lines.deep_view().len() == lines@.len(),
            r@ == join_lines(spliced.take(j as int)),
        decreases lines@.len() - j,
    {
        proof {
            assert(spliced[j as int] == lines@[j as int].deep_view());
            assert(spliced.take(j + 1) =~= spliced.take(j as int).push(spliced[j as int]));
            lemma_join_lines_push(spliced.take(j as int), spliced[j as int]);
        }
        if j > 0 {
            r = r.concat("\n");
        }
        r = r.concat(lines[j].as_str());
        j += 1;
    }
    proof {
        assert(spliced.take(spliced.len() as int) =~= spliced);
    }
    r
}

} // verus!
