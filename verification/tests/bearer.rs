use flexnotes::auth::bearer::strip_bearer;

#[test]
fn prefix_is_stripped() {
    assert_eq!(strip_bearer("Bearer abc.def.ghi"), "abc.def.ghi");
}

#[test]
fn repeated_prefix_is_stripped_whole() {
    assert_eq!(strip_bearer("Bearer Bearer abc"), "abc");
    assert_eq!(strip_bearer("Bearer Bearer "), "");
}

#[test]
fn value_without_the_prefix_is_the_token() {
    assert_eq!(strip_bearer("abc"), "abc");
    assert_eq!(strip_bearer(""), "");
    assert_eq!(strip_bearer("Bearer"), "Bearer");
    assert_eq!(strip_bearer("bearer abc"), "bearer abc");
    assert_eq!(strip_bearer(" Bearer abc"), " Bearer abc");
    assert_eq!(strip_bearer("Bearerabc"), "Bearerabc");
}

#[test]
fn prefix_inside_the_token_stays() {
    assert_eq!(strip_bearer("Bearer abc Bearer def"), "abc Bearer def");
}

#[test]
fn characters_of_several_bytes_are_kept_whole() {
    assert_eq!(strip_bearer("Bearer żółw"), "żółw");
    assert_eq!(strip_bearer("żBearer x"), "żBearer x");
}
