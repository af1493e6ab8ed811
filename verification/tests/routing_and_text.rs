use frontend::api::{bearer_authorization, update_url};
use frontend::routes::Route;
use frontend::text::{chars_of, count_words, is_white_space_char, push_decimal, str_eq};

#[test]
fn paths_are_recognised() {
    assert_eq!(Route::recognize("/"), Route::Home);
    assert_eq!(Route::recognize(""), Route::Home);
    assert_eq!(Route::recognize("/login"), Route::Login);
    assert_eq!(Route::recognize("/login/"), Route::Login);
    assert_eq!(Route::recognize("/register"), Route::Register);
    assert_eq!(Route::recognize("/notes"), Route::Notes);
    assert_eq!(Route::recognize("/404"), Route::NotFound);
    assert_eq!(Route::recognize("/nope"), Route::NotFound);
    assert_eq!(Route::recognize("/Login"), Route::NotFound);
    assert_eq!(Route::recognize("/login//"), Route::NotFound);
}

#[test]
fn every_route_round_trips() {
    for r in [Route::Home, Route::Login, Route::Register, Route::Notes, Route::NotFound] {
        assert_eq!(Route::recognize(&r.to_path()), r);
    }
    assert_eq!(Route::Notes.to_path(), "/notes");
}

#[test]
fn words_are_counted_like_split_whitespace() {
    for s in ["", "   ", "one", " one ", "a b\tc\nd", "x\u{00A0}y", "x\u{3000}y\u{2003}z", "héllo wörld"] {
        assert_eq!(count_words(s), s.split_whitespace().count(), "{:?}", s);
    }
    assert_eq!(count_words("ab") + count_words("cd"), count_words("ab cd"));
}

#[test]
fn whitespace_matches_std() {
    for u in 0u32..0x3100 {
        if let Some(c) = char::from_u32(u) {
            assert_eq!(is_white_space_char(c), c.is_whitespace(), "{:x}", u);
        }
    }
}

#[test]
fn decimal_rendering() {
    for n in [0usize, 7, 10, 99, 100, 12345, usize::MAX] {
        let mut s = String::from("#");
        push_decimal(&mut s, n);
        assert_eq!(s, format!("#{}", n));
    }
    assert_eq!(update_url(0), "http://localhost:8000/api/update/0/");
}

#[test]
fn text_helpers() {
    assert_eq!(chars_of("aé"), vec!['a', 'é']);
    assert!(str_eq("abc", "abc"));
    assert!(!str_eq("abc", "abd"));
    assert!(!str_eq("abc", "ab"));
    assert_eq!(bearer_authorization("t0k"), "Bearer t0k");
}
