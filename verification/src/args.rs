//! Argument parsing.
//!
//! The launcher is invoked as `[--rw PATH]... [--ro PATH]... -- <command>
//! [args...]`, with the two flags repeatable in any order. Arguments are byte
//! strings, as the operating system delivers them. Parsing is a pure
//! function: flag/path pairs are consumed until the lone `--` separator, and
//! everything after the separator is the command vector. Any other flag, a
//! flag without a following path, input exhausted without the separator, or
//! an empty command vector is a usage error.

use vstd::prelude::*;

verus! {

/// The byte `'-'`.
pub const DASH: u8 = 45;

/// The byte `'r'`.
pub const LOWER_R: u8 = 114;

/// The byte `'w'`.
pub const LOWER_W: u8 = 119;

/// The byte `'o'`.
pub const LOWER_O: u8 = 111;

/// The lone separator token `--`.
pub open spec fn sep_token() -> Seq<u8> {
    seq![DASH, DASH]
}

/// The read-write flag token `--rw`.
pub open spec fn rw_token() -> Seq<u8> {
    seq![DASH, DASH, LOWER_R, LOWER_W]
}

/// The read-only flag token `--ro`.
pub open spec fn ro_token() -> Seq<u8> {
    seq![DASH, DASH, LOWER_R, LOWER_O]
}

/// A malformed invocation.
#[derive(Clone, Copy, PartialEq, Eq, Structural, Debug)]
pub enum UsageError {
    /// An unknown flag, a flag without a following path, or no argument at
    /// all.
    Malformed,
    /// Input ended without the separator, or nothing followed it.
    MissingCommand,
}

/// The parsed request: the read-only paths, the read-write paths, each in
/// flag order, and the command vector.
pub struct ParsedRequest {
    pub ro_paths: Vec<Vec<u8>>,
    pub rw_paths: Vec<Vec<u8>>,
    pub command: Vec<Vec<u8>>,
}

/// What parsing the argument list yields: the read-only paths, the
/// read-write paths and the command vector, or the usage error.
pub open spec fn parse_spec(args: Seq<Seq<u8>>) -> Result<
    (Seq<Seq<u8>>, Seq<Seq<u8>>, Seq<Seq<u8>>),
    UsageError,
>
    decreases args.len(),
{
    if args.len() == 0 {
        Err(UsageError::MissingCommand)
    } else if args[0] == sep_token() {
        if args.len() == 1 {
            Err(UsageError::MissingCommand)
        } else {
            Ok((Seq::empty(), Seq::empty(), args.skip(1)))
        }
    } else if args.len() < 2 {
        Err(UsageError::Malformed)
    } else if args[0] == ro_token() {
        match parse_spec(args.skip(2)) {
            Ok((ro, rw, cmd)) => Ok((seq![args[1]] + ro, rw, cmd)),
            Err(e) => Err(e),
        }
    } else if args[0] == rw_token() {
        match parse_spec(args.skip(2)) {
            Ok((ro, rw, cmd)) => Ok((ro, seq![args[1]] + rw, cmd)),
            Err(e) => Err(e),
        }
    } else {
        Err(UsageError::Malformed)
    }
}

/// True when `a` is the byte string `--`.
fn is_sep(a: &Vec<u8>) -> (r: bool)
    ensures
        r == (a@ == sep_token()),
{
    let r = a.len() == 2 && a[0] == DASH && a[1] == DASH;
    proof {
        if r {
            assert(a@ =~= sep_token());
        }
        if a@ == sep_token() {
            assert(a@.len() == 2);
        }
    }
    r
}

/// True when `a` is the byte string `--ro`.
fn is_ro(a: &Vec<u8>) -> (r: bool)
    ensures
        r == (a@ == ro_token()),
{
    let r = a.len() == 4 && a[0] == DASH && a[1] == DASH && a[2] == LOWER_R && a[3] == LOWER_O;
    proof {
        if r {
            assert(a@ =~= ro_token());
        }
        if a@ == ro_token() {
            assert(a@.len() == 4);
        }
    }
    r
}

/// True when `a` is the byte string `--rw`.
fn is_rw(a: &Vec<u8>) -> (r: bool)
    ensures
        r == (a@ == rw_token()),
{
    let r = a.len() == 4 && a[0] == DASH && a[1] == DASH && a[2] == LOWER_R && a[3] == LOWER_W;
    proof {
        if r {
            assert(a@ =~= rw_token());
        }
        if a@ == rw_token() {
            assert(a@.len() == 4);
        }
    }
    r
}

/// The deep view of a vector of byte strings is the sequence of its
/// elements' views.
proof fn lemma_deep_view_is_views(v: &Vec<Vec<u8>>)
    ensures
        v.deep_view().len() == v@.len(),
        forall|j: int| 0 <= j < v@.len() ==> #[trigger] v.deep_view()[j] == v@[j]@,
{
    assert forall|j: int| 0 <= j < v@.len() implies #[trigger] v.deep_view()[j] == v@[j]@ by {
        assert(v@[j].deep_view() =~= v@[j]@);
    }
}

/// Parses the argument list (program name excluded). An empty list is a
/// malformed invocation; otherwise the result is exactly what `parse_spec`
/// says of the list.
pub fn parse_args(args: &Vec<Vec<u8>>) -> (r: Result<ParsedRequest, UsageError>)
    ensures
        args@.len() == 0 ==> r == Err::<ParsedRequest, UsageError>(UsageError::Malformed),
        args@.len() > 0 ==> match r {
            Ok(p) => parse_spec(args.deep_view()) == Ok::<_, UsageError>(
                (p.ro_paths.deep_view(), p.rw_paths.deep_view(), p.command.deep_view()),
            ),
            Err(e) => parse_spec(args.deep_view()) == Err::<
                (Seq<Seq<u8>>, Seq<Seq<u8>>, Seq<Seq<u8>>),
                UsageError,
            >(e),
        },
{
    if args.len() == 0 {
        return Err(UsageError::Malformed);
    }
    proof {
        assert(args.deep_view().skip(0) =~= args.deep_view());
    }
    parse_from(args, 0)
}

/// Parses the suffix of the argument list that starts at `i`.
fn parse_from(args: &Vec<Vec<u8>>, i: usize) -> (r: Result<ParsedRequest, UsageError>)
    requires
        i <= args@.len(),
    ensures
        match r {
            Ok(p) => parse_spec(args.deep_view().skip(i as int)) == Ok::<_, UsageError>(
                (p.ro_paths.deep_view(), p.rw_paths.deep_view(), p.command.deep_view()),
            ),
            Err(e) => parse_spec(args.deep_view().skip(i as int)) == Err::<
                (Seq<Seq<u8>>, Seq<Seq<u8>>, Seq<Seq<u8>>),
                UsageError,
            >(e),
        },
    decreases args@.len() - i,
{
    let ghost rest = args.deep_view().skip(i as int);
    if i == args.len() {
        proof {
            assert(rest.len() == 0);
        }
        return Err(UsageError::MissingCommand);
    }
    proof {
        assert(rest[0] == args.deep_view()[i as int]);
        assert(args.deep_view()[i as int] == args@[i as int]@);
    }
    if is_sep(&args[i]) {
        if i + 1 == args.len() {
            proof {
                assert(rest.len() == 1);
            }
            return Err(UsageError::MissingCommand);
        }
        let mut command: Vec<Vec<u8>> = Vec::new();
        let mut k: usize = i + 1;
        while k < args.len()
            invariant
                i + 1 <= k <= args@.len(),
                command@.len() == k - (i + 1),
                forall|j: int| 0 <= j < command@.len() ==> #[trigger] command@[j]@ == args@[
                    i + 1 + j
                ]@,
            decreases args@.len() - k,
        {
            command.push(crate::paths::clone_bytes(&args[k]));
            k = k + 1;
        }
        let ro_paths: Vec<Vec<u8>> = Vec::new();
        let rw_paths: Vec<Vec<u8>> = Vec::new();
        proof {
            lemma_deep_view_is_views(&command);
            lemma_deep_view_is_views(args);
            lemma_deep_view_is_views(&ro_paths);
            lemma_deep_view_is_views(&rw_paths);
            assert forall|j: int| 0 <= j < command.deep_view().len() implies command.deep_view()[j]
                == rest.skip(1)[j] by {
                assert(rest.skip(1)[j] == args.deep_view()[i + 1 + j]);
            }
            assert(command.deep_view() =~= rest.skip(1));
            assert(ro_paths.deep_view() =~= Seq::<Seq<u8>>::empty());
            assert(rw_paths.deep_view() =~= Seq::<Seq<u8>>::empty());
            assert(rest.len() > 1);
        }
        return Ok(ParsedRequest { ro_paths, rw_paths, command });
    }
    if i + 1 == args.len() {
        proof {
            assert(rest.len() == 1);
        }
        return Err(UsageError::Malformed);
    }
    let ro = is_ro(&args[i]);
    let rw = is_rw(&args[i]);
    if !ro && !rw {
        return Err(UsageError::Malformed);
    }
    proof {
        lemma_deep_view_is_views(args);
        assert(rest.skip(2) =~= args.deep_view().skip(i + 2 as int));
        assert(rest[1] == args@[i + 1 as int]@);
    }
    let tail = parse_from(args, i + 2);
    match tail {
        Ok(p) => {
            let path = crate::paths::clone_bytes(&args[i + 1]);
            let ParsedRequest { mut ro_paths, mut rw_paths, command } = p;
            if ro {
                let ghost old_vs = ro_paths@;
                let ghost before = ro_paths.deep_view();
                proof {
                    lemma_deep_view_is_views(&ro_paths);
                }
                ro_paths.insert(0, path);
                proof {
                    lemma_deep_view_is_views(&ro_paths);
                    assert forall|j: int| 0 <= j < ro_paths.deep_view().len() implies
                        ro_paths.deep_view()[j] == (seq![rest[1]] + before)[j] by {
                        if j == 0 {
                            assert(ro_paths@[0] == old_vs.insert(0, path)[0]);
                        } else {
                            assert(ro_paths@[j] == old_vs.insert(0, path)[j]);
                            assert(old_vs.insert(0, path)[j] == old_vs[j - 1]);
                        }
                    }
                    assert(ro_paths.deep_view() =~= seq![rest[1]] + before);
                }
            } else {
                let ghost old_vs = rw_paths@;
                let ghost before = rw_paths.deep_view();
                proof {
                    lemma_deep_view_is_views(&rw_paths);
                }
                rw_paths.insert(0, path);
                proof {
                    lemma_deep_view_is_views(&rw_paths);
                    assert forall|j: int| 0 <= j < rw_paths.deep_view().len() implies
                        rw_paths.deep_view()[j] == (seq![rest[1]] + before)[j] by {
                        if j == 0 {
                            assert(rw_paths@[0] == old_vs.insert(0, path)[0]);
                        } else {
                            assert(rw_paths@[j] == old_vs.insert(0, path)[j]);
                            assert(old_vs.insert(0, path)[j] == old_vs[j - 1]);
                        }
                    }
                    assert(rw_paths.deep_view() =~= seq![rest[1]] + before);
                }
            }
            Ok(ParsedRequest { ro_paths, rw_paths, command })
        },
        Err(e) => Err(e),
    }
}

} // verus!
