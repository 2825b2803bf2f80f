use pong_core::shader::source_with_version;

#[test]
fn version_directive_is_prepended() {
    let s = source_with_version("void main() {}");
    assert_eq!(s, "#version 430\nvoid main() {}");
}

#[test]
fn empty_source_keeps_only_the_directive() {
    let s = source_with_version("");
    assert_eq!(s, "#version 430\n");
}
