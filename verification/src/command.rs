//! Construction of the external commands that drive one case through the
//! pipeline: the toolchain invocations and the per-case scratch paths,
//! keyed by the case's corpus index.

use vstd::prelude::*;

use crate::model::{AssertionMode, Stage};

verus! {

/// The decimal digit character for `d`.
pub open spec fn digit_char(d: int) -> char {
    if d == 0 {
        '0'
    } else if d == 1 {
        '1'
    } else if d == 2 {
        '2'
    } else if d == 3 {
        '3'
    } else if d == 4 {
        '4'
    } else if d == 5 {
        '5'
    } else if d == 6 {
        '6'
    } else if d == 7 {
        '7'
    } else if d == 8 {
        '8'
    } else {
        '9'
    }
}

/// The decimal digits of `n`, most significant first, with no sign and no
/// leading zeros (a single `'0'` for zero).
pub open spec fn decimal_digits(n: nat) -> Seq<char>
    decreases n,
{
    if n < 10 {
        seq![digit_char(n as int)]
    } else {
        decimal_digits(n / 10).push(digit_char((n % 10) as int))
    }
}

/// The one-character string for the decimal digit `d`.
fn digit_str(d: usize) -> (r: &'static str)
    requires
        d < 10,
    ensures
        r@ == seq![digit_char(d as int)],
{
    match d {
        0 => {
            proof {
                reveal_strlit("0");
                assert("0"@ =~= seq![digit_char(0)]);
            }
            "0"
        },
        1 => {
            proof {
                reveal_strlit("1");
                assert("1"@ =~= seq![digit_char(1)]);
            }
            "1"
        },
        2 => {
            proof {
                reveal_strlit("2");
                assert("2"@ =~= seq![digit_char(2)]);
            }
            "2"
        },
        3 => {
            proof {
                reveal_strlit("3");
                assert("3"@ =~= seq![digit_char(3)]);
            }
            "3"
        },
        4 => {
            proof {
                reveal_strlit("4");
                assert("4"@ =~= seq![digit_char(4)]);
            }
            "4"
        },
        5 => {
            proof {
                reveal_strlit("5");
                assert("5"@ =~= seq![digit_char(5)]);
            }
            "5"
        },
        6 => {
            proof {
                reveal_strlit("6");
                assert("6"@ =~= seq![digit_char(6)]);
            }
            "6"
        },
        7 => {
            proof {
                reveal_strlit("7");
                assert("7"@ =~= seq![digit_char(7)]);
            }
            "7"
        },
        8 => {
            proof {
                reveal_strlit("8");
                assert("8"@ =~= seq![digit_char(8)]);
            }
            "8"
        },
        _ => {
            proof {
                reveal_strlit("9");
                assert("9"@ =~= seq![digit_char(9)]);
            }
            "9"
        },
    }
}

/// Render `n` in decimal.
pub fn format_usize(n: usize) -> (r: String)
    ensures
        r@ == decimal_digits(n as nat),
    decreases n,
{
    if n < 10 {
        String::from_str(digit_str(n))
    } else {
        let mut s = format_usize(n / 10);
        s.append(digit_str(n % 10));
        proof {
            assert(decimal_digits(n as nat) =~= decimal_digits(n as nat / 10).push(
                digit_char((n as nat % 10) as int),
            ));
            assert(decimal_digits(n as nat / 10).push(digit_char((n as nat % 10) as int))
                =~= decimal_digits(n as nat / 10) + seq![digit_char((n as nat % 10) as int)]);
        }
        s
    }
}

/// Scratch path of the reference-built binary for case `i`.
pub open spec fn ref_binary_path(i: nat) -> Seq<char> {
    "./out/gcc"@ + decimal_digits(i)
}

/// Scratch path of the assembly file the candidate compiler emits for
/// case `i`.
pub open spec fn asm_path(i: nat) -> Seq<char> {
    "./out/"@ + decimal_digits(i) + ".s"@
}

/// Scratch path of the candidate-built binary for case `i`.
pub open spec fn cand_binary_path(i: nat) -> Seq<char> {
    "./out/"@ + decimal_digits(i)
}

/// Build the reference-binary scratch path for case `i`.
pub fn ref_binary_path_exec(i: usize) -> (r: String)
    ensures
        r@ == ref_binary_path(i as nat),
{
    let mut s = String::from_str("./out/gcc");
    let digits = format_usize(i);
    s.append(digits.as_str());
    s
}

/// Build the assembly scratch path for case `i`.
pub fn asm_path_exec(i: usize) -> (r: String)
    ensures
        r@ == asm_path(i as nat),
{
    let mut s = String::from_str("./out/");
    let digits = format_usize(i);
    s.append(digits.as_str());
    s.append(".s");
    s
}

/// Build the candidate-binary scratch path for case `i`.
pub fn cand_binary_path_exec(i: usize) -> (r: String)
    ensures
        r@ == cand_binary_path(i as nat),
{
    let mut s = String::from_str("./out/");
    let digits = format_usize(i);
    s.append(digits.as_str());
    s
}

/// The character sequences of a sequence of strings, in order.
pub open spec fn views_of(s: Seq<String>) -> Seq<Seq<char>> {
    s.map_values(|x: String| x@)
}

pub proof fn lemma_views_of_push(s: Seq<String>, x: String)
    ensures
        views_of(s.push(x)) =~= views_of(s).push(x@),
{
    assert forall|j: int| 0 <= j < s.len() + 1 implies #[trigger] views_of(s.push(x))[j]
        == views_of(s).push(x@)[j] by {
        if j < s.len() {
            assert(s.push(x)[j] == s[j]);
        } else {
            assert(s.push(x)[j] == x);
        }
    }
}

pub proof fn lemma_views_of_concat(a: Seq<String>, b: Seq<String>)
    ensures
        views_of(a + b) =~= views_of(a) + views_of(b),
{
    assert forall|j: int| 0 <= j < a.len() + b.len() implies #[trigger] views_of(a + b)[j] == (
    views_of(a) + views_of(b))[j] by {
        if j < a.len() {
            assert((a + b)[j] == a[j]);
        } else {
            assert((a + b)[j] == b[j - a.len()]);
        }
    }
}

/// Mathematical value of [`AuxiliaryInputs`].
pub ghost struct AuxModel {
    pub sources: Seq<Seq<char>>,
    pub objects: Seq<Seq<char>>,
    pub header_directive: Seq<char>,
}

/// The fixed harness inputs that outer-linked cases draw on, supplied by
/// the surrounding application: the auxiliary source files the reference
/// compile links in, the matching object files the assemble stage links
/// in, and the directive text prepended to an outer-linked snippet so it
/// can call the helpers those files define.
pub struct AuxiliaryInputs {
    pub sources: Vec<String>,
    pub objects: Vec<String>,
    pub header_directive: String,
}

impl View for AuxiliaryInputs {
    type V = AuxModel;

    open spec fn view(&self) -> AuxModel {
        AuxModel {
            sources: views_of(self.sources@),
            objects: views_of(self.objects@),
            header_directive: self.header_directive@,
        }
    }
}

/// Mathematical value of a [`CommandSpec`].
pub ghost struct CommandModel {
    pub program: Seq<char>,
    pub args: Seq<Seq<char>>,
}

/// One external command to run: the executable and its arguments, in
/// order. The working directory and the deadline are the caller's.
pub struct CommandSpec {
    pub program: String,
    pub args: Vec<String>,
}

impl View for CommandSpec {
    type V = CommandModel;

    open spec fn view(&self) -> CommandModel {
        CommandModel { program: self.program@, args: views_of(self.args@) }
    }
}

/// The exact command the pipeline runs for `stage` of case `i`:
/// `source_path` is the materialized snippet on disk, `source_text` the
/// snippet itself, and `aux` the fixed harness inputs linked in for
/// outer-linked cases.
pub open spec fn command_model(
    stage: Stage,
    mode: AssertionMode,
    i: nat,
    source_path: Seq<char>,
    source_text: Seq<char>,
    aux: AuxModel,
) -> CommandModel {
    match stage {
        Stage::RefCompile => CommandModel {
            program: "gcc"@,
            args: seq!["-xc"@, "-o"@, ref_binary_path(i)] + (if mode is OuterLinked {
                aux.sources
            } else {
                Seq::empty()
            }) + seq![source_path],
        },
        Stage::CandCompile => CommandModel {
            program: "./main"@,
            args: seq!["-o"@, asm_path(i), "-I"@, source_text],
        },
        Stage::Assemble => CommandModel {
            program: "gcc"@,
            args: seq!["-o"@, cand_binary_path(i), asm_path(i)] + (if mode is OuterLinked {
                aux.objects
            } else {
                Seq::empty()
            }),
        },
        Stage::CandRun => CommandModel { program: cand_binary_path(i), args: Seq::empty() },
        Stage::RefRun => CommandModel { program: ref_binary_path(i), args: Seq::empty() },
    }
}

/// Append copies of every argument in `src` to `dst`.
fn push_all(dst: &mut Vec<String>, src: &Vec<String>)
    ensures
        final(dst)@ =~= old(dst)@ + src@,
{
    let mut k: usize = 0;
    while k < src.len()
        invariant
            k <= src.len(),
            dst@ =~= old(dst)@ + src@.take(k as int),
        decreases src.len() - k,
    {
        dst.push(src[k].clone());
        proof {
            assert(src@.take(k + 1) =~= src@.take(k as int).push(src@[k as int]));
        }
        k = k + 1;
    }
    proof {
        assert(src@.take(src.len() as int) =~= src@);
    }
}

/// Build the command for `stage` of case `i`.
pub fn build_command(
    stage: Stage,
    mode: AssertionMode,
    i: usize,
    source_path: &str,
    source_text: &str,
    aux: &AuxiliaryInputs,
) -> (c: CommandSpec)
    ensures
        c@ == command_model(stage, mode, i as nat, source_path@, source_text@, aux@),
{
    match stage {
        Stage::RefCompile => {
            let mut args: Vec<String> = Vec::new();
            args.push(String::from_str("-xc"));
            args.push(String::from_str("-o"));
            args.push(ref_binary_path_exec(i));
            let ghost head = args@;
            proof {
                assert(views_of(head) =~= seq!["-xc"@, "-o"@, ref_binary_path(i as nat)]);
            }
            if matches!(mode, AssertionMode::OuterLinked) {
                push_all(&mut args, &aux.sources);
                proof {
                    lemma_views_of_concat(head, aux.sources@);
                }
            }
            let ghost mid = args@;
            args.push(String::from_str(source_path));
            proof {
                lemma_views_of_push(mid, args@[mid.len() as int]);
                assert(views_of(args@) =~= command_model(
                    stage,
                    mode,
                    i as nat,
                    source_path@,
                    source_text@,
                    aux@,
                ).args);
            }
            CommandSpec { program: String::from_str("gcc"), args }
        },
        Stage::CandCompile => {
            let mut args: Vec<String> = Vec::new();
            args.push(String::from_str("-o"));
            args.push(asm_path_exec(i));
            args.push(String::from_str("-I"));
            args.push(String::from_str(source_text));
            proof {
                assert(views_of(args@) =~= command_model(
                    stage,
                    mode,
                    i as nat,
                    source_path@,
                    source_text@,
                    aux@,
                ).args);
            }
            CommandSpec { program: String::from_str("./main"), args }
        },
        Stage::Assemble => {
            let mut args: Vec<String> = Vec::new();
            args.push(String::from_str("-o"));
            args.push(cand_binary_path_exec(i));
            args.push(asm_path_exec(i));
            let ghost head = args@;
            proof {
                assert(views_of(head) =~= seq![
                    "-o"@,
                    cand_binary_path(i as nat),
                    asm_path(i as nat),
                ]);
            }
            if matches!(mode, AssertionMode::OuterLinked) {
                push_all(&mut args, &aux.objects);
                proof {
                    lemma_views_of_concat(head, aux.objects@);
                }
            }
            proof {
                assert(views_of(args@) =~= command_model(
                    stage,
                    mode,
                    i as nat,
                    source_path@,
                    source_text@,
                    aux@,
                ).args);
            }
            CommandSpec { program: String::from_str("gcc"), args }
        },
        Stage::CandRun => {
            let args: Vec<String> = Vec::new();
            proof {
                assert(views_of(args@) =~= Seq::<Seq<char>>::empty());
            }
            CommandSpec { program: cand_binary_path_exec(i), args }
        },
        Stage::RefRun => {
            let args: Vec<String> = Vec::new();
            proof {
                assert(views_of(args@) =~= Seq::<Seq<char>>::empty());
            }
            CommandSpec { program: ref_binary_path_exec(i), args }
        },
    }
}

} // verus!
