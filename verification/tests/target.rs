use sysyust::target::{map_argments_to_target, Args, Target, TransformTarget};

fn args(interpreter: bool, llvm_ir_dump: bool, riscv: bool, source: Vec<&str>) -> Args {
    Args {
        target: TransformTarget { interpreter, llvm_ir_dump, riscv },
        source: source.into_iter().map(String::from).collect(),
    }
}

#[test]
fn each_flag_selects_its_target() {
    assert_eq!(map_argments_to_target(&args(true, false, false, vec![])), Target::Interpreter);
    assert_eq!(map_argments_to_target(&args(false, true, false, vec![])), Target::LLVMIr);
    assert_eq!(map_argments_to_target(&args(false, false, true, vec![])), Target::RiscV);
}

#[test]
fn the_first_flag_set_wins() {
    assert_eq!(map_argments_to_target(&args(true, true, true, vec![])), Target::Interpreter);
    assert_eq!(map_argments_to_target(&args(false, true, true, vec![])), Target::LLVMIr);
}

#[test]
fn exactly_one_source_is_accepted() {
    assert_eq!(args(true, false, false, vec![]).single_source(), None);
    assert_eq!(
        args(true, false, false, vec!["a.sy"]).single_source(),
        Some(&String::from("a.sy"))
    );
    assert_eq!(args(true, false, false, vec!["a.sy", "b.sy"]).single_source(), None);
}
