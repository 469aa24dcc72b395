use regex::Regex;
use wf_twitch_notifier::credentials::{parse_init_file, InitFile, INIT_FILE_PATTERN};
use wf_twitch_notifier::listener::meta_relics::extract_node;

#[test]
fn init_file_holds_the_three_values() {
    let contents = "User Access Token: abc123\nRefresh Token: def456\nExpires At: 2024-01-01 12:00:00.5 +0000 UTC  \n";
    assert_eq!(
        parse_init_file(contents),
        Some(InitFile {
            access_token: "abc123".to_owned(),
            refresh_token: "def456".to_owned(),
            expires_at: "2024-01-01 12:00:00.5 +0000 UTC".to_owned(),
        })
    );
}

#[test]
fn init_file_may_hold_more_around_the_values() {
    let contents = "Some header\r\nUser Access Token:   tok_1  \r\n\r\nnote: Refresh Token:\tref_2\r\nExpires At:  soon\r\nmore";
    assert_eq!(
        parse_init_file(contents),
        Some(InitFile {
            access_token: "tok_1".to_owned(),
            refresh_token: "ref_2".to_owned(),
            expires_at: "soon".to_owned(),
        })
    );
}

#[test]
fn init_file_of_another_form_holds_nothing() {
    assert_eq!(parse_init_file(""), None);
    assert_eq!(parse_init_file("User Access Token: abc123\nExpires At: soon"), None);
    assert_eq!(parse_init_file("Refresh Token: def456\nUser Access Token: abc123\nExpires At: x"), None);
    assert_eq!(parse_init_file("User Access Token:\nRefresh Token: def456\nExpires At: x"), None);
}

#[test]
fn init_file_values_are_those_of_the_pattern() {
    let contents = "User Access Token: a\nRefresh Token: b\nExpires At: \t c d \n";
    let expected = Regex::new(INIT_FILE_PATTERN).unwrap().captures(contents).unwrap();
    let found = parse_init_file(contents).unwrap();
    assert_eq!(found.access_token, &expected["accessToken"]);
    assert_eq!(found.refresh_token, &expected["refreshToken"]);
    assert_eq!(found.expires_at, expected["expiresAt"].trim());
    assert_eq!(found.expires_at, "c d");
}

#[test]
fn node_is_the_first_group_of_the_label_pattern() {
    let pattern = Regex::new(r"(.*) \(").unwrap();
    let labels = [
        "Yuvarium (Lua)",
        "Nu-gua Mines (Neptune)",
        "R-9 Cloud (Veil)",
        "",
        " (",
        "(",
        " ",
        "a ( (",
        "a (b) (c)",
        "no mark at all",
        "x\ny (z",
        "x (\ny (z",
        "\n (",
        " (\n",
        "a\n\nb (c) (d\ne (f",
        "a \n(b",
        "a\r\nb (c\r\n",
        "Čeres 🌙 (Plänet)",
        "\n\n\n",
        "a (b\n (",
        " ( ( ( (",
        "tab\t(",
    ];
    for label in labels {
        let expected = pattern.captures(label).and_then(|c| c.get(1).map(|m| m.as_str()));
        assert_eq!(extract_node(label), expected, "{:?}", label);
    }
}
