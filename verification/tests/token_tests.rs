use screenshare::token::make_dbus_handle_token;
use screenshare::token::request_path;
use screenshare::token::token_from_bytes;
use screenshare::token::xdg_unique_name;

#[test]
fn hex_of_single_zero_byte() {
    assert_eq!(token_from_bytes(&vec![0x00]), "0");
}

#[test]
fn hex_keeps_short_form_per_byte() {
    // 0xab renders as two digits, 0x05 as one, as the shortest form of
    // each byte.
    assert_eq!(token_from_bytes(&vec![0xab, 0x05]), "ab5");
}

#[test]
fn hex_of_mixed_bytes() {
    assert_eq!(token_from_bytes(&vec![0xff, 0x10, 0x0f]), "ff10f");
}

#[test]
fn hex_of_empty_is_empty() {
    assert_eq!(token_from_bytes(&Vec::new()), "");
}

#[test]
fn generated_token_shape() {
    let t = make_dbus_handle_token();
    assert!(t.len() >= 20 && t.len() <= 40);
    assert!(t.chars().all(|c| c.is_ascii_hexdigit() && !c.is_ascii_uppercase()));
}

#[test]
fn generated_token_is_not_the_all_zero_token() {
    // If the random fill handed its buffer back unchanged, every byte
    // would still be zero and the token would be twenty '0' characters.
    let zeros: String = std::iter::repeat('0').take(20).collect();
    assert_ne!(make_dbus_handle_token(), zeros);
}

#[test]
fn generated_tokens_differ() {
    assert_ne!(make_dbus_handle_token(), make_dbus_handle_token());
}

#[test]
fn unique_name_mangling() {
    assert_eq!(xdg_unique_name(":1.42"), "1_42");
}

#[test]
fn unique_name_mangling_drops_every_leading_colon() {
    assert_eq!(xdg_unique_name("::a.b."), "a_b_");
}

#[test]
fn unique_name_mangling_of_empty() {
    assert_eq!(xdg_unique_name(""), "");
}

#[test]
fn unique_name_without_colon_or_dot_is_kept() {
    assert_eq!(xdg_unique_name("abc"), "abc");
}

#[test]
fn request_path_layout() {
    assert_eq!(
        request_path("1_42", "tok"),
        "/org/freedesktop/portal/desktop/request/1_42/tok"
    );
}
