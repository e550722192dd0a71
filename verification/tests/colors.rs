use dua_core::Color;
use dua_core::Sorting;
use dua_core::WalkOptions;
use dua_core::ByteFormat;

#[test]
fn disabled_renders_nothing() {
    let wrapped = Color::Disabled.display(42u64);
    assert_eq!(wrapped.render("42".to_string()), "");
    assert_eq!(wrapped.render("anything at all".to_string()), "");
}

#[test]
fn terminal_renders_the_value_itself() {
    let wrapped = Color::Terminal.display("bold");
    assert_eq!(wrapped.render("bold".to_string()), "bold");
}

#[test]
fn rendering_is_idempotent() {
    let wrapped = Color::Disabled.display(7u8);
    for _ in 0..3 {
        assert_eq!(wrapped.render("7".to_string()), "");
    }
    let wrapped = Color::Terminal.display(7u8);
    for _ in 0..3 {
        assert_eq!(wrapped.render("7".to_string()), "7");
    }
}

#[test]
fn walk_configuration_is_built_without_touching_the_disk() {
    let opts = WalkOptions { threads: 3, format: ByteFormat::Metric, color: Color::Terminal };
    let _unsorted = opts.iter_from_path("no/such/root", Sorting::Unsorted);
    let _sorted = opts.iter_from_path("no/such/root", Sorting::Alphabetical);
}
