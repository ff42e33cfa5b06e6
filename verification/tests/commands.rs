use difftester::command::{
    asm_path_exec, build_command, cand_binary_path_exec, format_usize, ref_binary_path_exec,
    AuxiliaryInputs,
};
use difftester::model::{AssertionMode, Stage};
use difftester::pipeline::materialize_source;

fn aux() -> AuxiliaryInputs {
    AuxiliaryInputs {
        sources: vec!["./test/alloc2.c".to_string(), "./test/print_u64.c".to_string()],
        objects: vec!["./test/alloc2.o".to_string(), "./test/print_u64.o".to_string()],
        header_directive: "HDR".to_string(),
    }
}

#[test]
fn decimal_formatting() {
    assert_eq!(format_usize(0), "0");
    assert_eq!(format_usize(7), "7");
    assert_eq!(format_usize(10), "10");
    assert_eq!(format_usize(42), "42");
    assert_eq!(format_usize(12345), "12345");
    assert_eq!(format_usize(1000), "1000");
}

#[test]
fn scratch_paths_are_keyed_by_case_index() {
    assert_eq!(ref_binary_path_exec(3), "./out/gcc3");
    assert_eq!(cand_binary_path_exec(3), "./out/3");
    assert_eq!(asm_path_exec(3), "./out/3.s");
    assert_eq!(ref_binary_path_exec(12), "./out/gcc12");
}

#[test]
fn reference_compile_command_simple() {
    let c = build_command(
        Stage::RefCompile,
        AssertionMode::Simple,
        4,
        "/tmp/case4.c",
        "int main(){return 0;}",
        &aux(),
    );
    assert_eq!(c.program, "gcc");
    assert_eq!(c.args, vec!["-xc", "-o", "./out/gcc4", "/tmp/case4.c"]);
}

#[test]
fn reference_compile_command_outer_linked_adds_aux_sources() {
    let c = build_command(
        Stage::RefCompile,
        AssertionMode::OuterLinked,
        4,
        "/tmp/case4.c",
        "int main(){return func();}",
        &aux(),
    );
    assert_eq!(c.program, "gcc");
    assert_eq!(
        c.args,
        vec![
            "-xc",
            "-o",
            "./out/gcc4",
            "./test/alloc2.c",
            "./test/print_u64.c",
            "/tmp/case4.c"
        ]
    );
}

#[test]
fn candidate_compile_command_takes_source_text() {
    let c = build_command(
        Stage::CandCompile,
        AssertionMode::Simple,
        5,
        "/tmp/case5.c",
        "int main(){return 1;}",
        &aux(),
    );
    assert_eq!(c.program, "./main");
    assert_eq!(c.args, vec!["-o", "./out/5.s", "-I", "int main(){return 1;}"]);
}

#[test]
fn assemble_command_simple() {
    let c = build_command(
        Stage::Assemble,
        AssertionMode::Simple,
        6,
        "/tmp/case6.c",
        "int main(){return 0;}",
        &aux(),
    );
    assert_eq!(c.program, "gcc");
    assert_eq!(c.args, vec!["-o", "./out/6", "./out/6.s"]);
}

#[test]
fn assemble_command_outer_linked_adds_aux_objects() {
    let c = build_command(
        Stage::Assemble,
        AssertionMode::OuterLinked,
        6,
        "/tmp/case6.c",
        "int main(){return 0;}",
        &aux(),
    );
    assert_eq!(c.program, "gcc");
    assert_eq!(
        c.args,
        vec!["-o", "./out/6", "./out/6.s", "./test/alloc2.o", "./test/print_u64.o"]
    );
}

#[test]
fn run_commands_have_no_arguments() {
    let c = build_command(
        Stage::CandRun,
        AssertionMode::Simple,
        8,
        "/tmp/case8.c",
        "",
        &aux(),
    );
    assert_eq!(c.program, "./out/8");
    assert!(c.args.is_empty());
    let c = build_command(
        Stage::RefRun,
        AssertionMode::Simple,
        8,
        "/tmp/case8.c",
        "",
        &aux(),
    );
    assert_eq!(c.program, "./out/gcc8");
    assert!(c.args.is_empty());
}

#[test]
fn materialize_keeps_plain_source_as_is() {
    let s = materialize_source(AssertionMode::Simple, "HDR", "int main(){return 0;}");
    assert_eq!(s, "int main(){return 0;}");
    let s = materialize_source(AssertionMode::PrintCheck, "HDR", "x");
    assert_eq!(s, "x");
    let s = materialize_source(AssertionMode::Negative, "HDR", "y");
    assert_eq!(s, "y");
}

#[test]
fn materialize_prepends_directive_for_outer_linked() {
    let s = materialize_source(AssertionMode::OuterLinked, "HDR", "int main(){return 0;}");
    assert_eq!(s, "HDR\n int main(){return 0;}");
}
