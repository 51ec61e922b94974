use ocl_map::{kernel_source, Op, ENTRY_POINT};

const HEAD: &str =
    "__kernel void __main__(__global float* buffer, float scalar) {\n    buffer[get_global_id(0)] ";

fn update_kernel(symbol: &str) -> String {
    format!("{}{}= scalar;\n}}\n", HEAD, symbol)
}

#[test]
fn add_source_is_compound_addition() {
    assert_eq!(kernel_source(&Op::Add), update_kernel("+"));
}

#[test]
fn min_source_is_compound_subtraction() {
    assert_eq!(kernel_source(&Op::Min), update_kernel("-"));
}

#[test]
fn mul_source_is_compound_multiplication() {
    assert_eq!(kernel_source(&Op::Mul), update_kernel("*"));
}

#[test]
fn div_source_is_compound_division() {
    assert_eq!(kernel_source(&Op::Div), update_kernel("/"));
}

#[test]
fn mod_source_is_compound_modulo() {
    assert_eq!(kernel_source(&Op::Mod), update_kernel("%"));
}

#[test]
fn noop_source_has_empty_body() {
    assert_eq!(
        kernel_source(&Op::NoOp),
        "__kernel void __main__(__global float* buffer, float scalar) {}"
    );
}

#[test]
fn every_source_defines_the_entry_point() {
    for op in [Op::Add, Op::Min, Op::Mul, Op::Div, Op::Mod, Op::NoOp] {
        let src = kernel_source(&op);
        assert!(src.starts_with("__kernel void __main__(__global float* buffer, float scalar) {"));
        assert!(src.contains(&format!("void {}(", ENTRY_POINT)));
    }
}

#[test]
fn update_sources_assign_exactly_once() {
    for op in [Op::Add, Op::Min, Op::Mul, Op::Div, Op::Mod] {
        let src = kernel_source(&op);
        assert_eq!(src.matches("= scalar;").count(), 1);
        assert!(!src.contains("] = scalar"));
    }
    assert!(!kernel_source(&Op::NoOp).contains("= scalar"));
}

#[test]
fn sources_differ_between_operators() {
    let ops = [Op::Add, Op::Min, Op::Mul, Op::Div, Op::Mod, Op::NoOp];
    for (i, a) in ops.iter().enumerate() {
        for (j, b) in ops.iter().enumerate() {
            assert_eq!(i == j, kernel_source(a) == kernel_source(b));
        }
    }
}
