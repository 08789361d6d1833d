use intake::text::{sanitize, sanitize_text};

#[test]
fn removes_each_denylisted_character() {
    assert_eq!(sanitize("a<b"), "ab");
    assert_eq!(sanitize("a>b"), "ab");
    assert_eq!(sanitize("a\"b"), "ab");
    assert_eq!(sanitize("a'b"), "ab");
    assert_eq!(sanitize("a;b"), "ab");
    assert_eq!(sanitize("a--b"), "ab");
}

#[test]
fn removes_all_occurrences() {
    assert_eq!(sanitize("<<<abc>>>"), "abc");
    assert_eq!(sanitize("';--<>\""), "");
}

#[test]
fn keeps_clean_text_unchanged() {
    assert_eq!(sanitize("Ana P\u{e9}rez"), "Ana P\u{e9}rez");
    assert_eq!(sanitize("hola mundo"), "hola mundo");
    assert_eq!(sanitize(""), "");
}

#[test]
fn single_dash_survives() {
    assert_eq!(sanitize("a-b"), "a-b");
    assert_eq!(sanitize("---"), "-");
    assert_eq!(sanitize("----"), "");
}

#[test]
fn removing_single_characters_can_join_a_double_dash() {
    // the dashes become adjacent only after the ';' is removed
    assert_eq!(sanitize("-;-"), "");
    assert_eq!(sanitize("-<-"), "");
}

#[test]
fn sanitize_is_idempotent_on_samples() {
    let samples = [
        "hello",
        "a<b>c\"d'e;f--g",
        "----",
        "-;-",
        "Robert'); DROP TABLE students;--",
        "  spaced  text  ",
        "\u{e1}\u{e9}\u{ed}\u{f3}\u{fa}\u{f1}",
    ];
    for s in samples {
        let once = sanitize(s);
        let twice = sanitize(&once);
        assert_eq!(once, twice);
    }
}

#[test]
fn output_never_contains_denylisted_text() {
    let samples = ["a<b>c\"d'e;f--g", "---x---", "<<>>", "';--", "plain"];
    for s in samples {
        let out = sanitize(s);
        for bad in ["<", ">", "\"", "'", ";", "--"] {
            assert!(!out.contains(bad));
        }
    }
}

#[test]
fn sanitize_text_rewrites_in_place() {
    let mut s = String::from("Ana <script>;--");
    sanitize_text(&mut s);
    assert_eq!(s, "Ana script");
}
