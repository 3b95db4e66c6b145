use ad_marketplace::config::ServerConfig;
use ad_marketplace::files::{file_name_of, get_random_file_name, media_path};
use ad_marketplace::ids::has_random_form;

#[test]
fn a_file_is_named_by_the_escaped_text_of_its_identifier() {
    assert_eq!(
        file_name_of(0xa1a2a3a4b1b2c1c2d1d2d3d4d5d6d7d8),
        "a1a2a3a4%2Db1b2%2Dc1c2%2Dd1d2%2Dd3d4d5d6d7d8"
    );
    assert_eq!(file_name_of(0), "00000000%2D0000%2D0000%2D0000%2D000000000000");
    assert_eq!(file_name_of(u128::MAX), "ffffffff%2Dffff%2Dffff%2Dffff%2Dffffffffffff");
    assert_eq!(
        file_name_of(0x0123456789abcdef0123456789abcdef),
        "01234567%2D89ab%2Dcdef%2D0123%2D456789abcdef"
    );
}

#[test]
fn a_random_file_name_is_that_of_a_random_identifier() {
    let name = get_random_file_name();
    assert_eq!(name.len(), 44);
    let digits: String = name.replace("%2D", "");
    assert_eq!(digits.len(), 32);
    let id = u128::from_str_radix(&digits, 16).unwrap();
    assert!(has_random_form(id));
    assert_eq!(file_name_of(id), name);
    assert_ne!(get_random_file_name(), name);
}

#[test]
fn the_form_of_a_random_identifier_is_in_six_of_its_bits() {
    assert!(has_random_form(0x00000000_0000_4000_8000_000000000000));
    assert!(has_random_form(0xffffffff_ffff_4fff_bfff_ffffffffffff));
    assert!(!has_random_form(0));
    assert!(!has_random_form(u128::MAX));
    assert!(!has_random_form(0x00000000_0000_1000_8000_000000000000));
    assert!(!has_random_form(0x00000000_0000_4000_c000_000000000000));
    assert!(!has_random_form(0x00000000_0000_4000_0000_000000000000));
}

#[test]
fn files_are_kept_in_the_media_directory_as_png() {
    assert_eq!(media_path("abc"), "media/abc.png");
    assert_eq!(media_path(""), "media/.png");
    assert_eq!(
        media_path(&file_name_of(0)),
        "media/00000000%2D0000%2D0000%2D0000%2D000000000000.png"
    );
}

#[test]
fn the_server_listens_everywhere_on_port_4000() {
    let config = ServerConfig::everywhere();
    assert_eq!(config.host, "0.0.0.0");
    assert_eq!(config.port, 4000);
}
