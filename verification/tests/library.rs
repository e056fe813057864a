use cp_tool::{
    decimal_string, first_loadable, is_whitespace, from_config, get_problem_id, get_problem_id_from_filename,
    query_pairs, trim, AsClientConfig, ClientConfig, Config, EjudgeClient, Error, ParsedUrl,
    Submission, UrlContestIDInfo, UserpassCredentials,
};

fn contest(base_url: &str) -> UrlContestIDInfo {
    UrlContestIDInfo { base_url: base_url.to_string(), contest_id: "7".to_string() }
}

fn config(url: &str, sid: &str) -> Config {
    Config { contest_url: url.to_string(), session_id: sid.to_string() }
}

fn submission(problem_id: Option<&str>, file: &str) -> Submission {
    Submission {
        problem_id: problem_id.map(|s| s.to_string()),
        lang_id: "3".to_string(),
        file: file.to_string(),
    }
}

#[test]
fn decimal_renders_numbers() {
    assert_eq!(decimal_string(0), "0");
    assert_eq!(decimal_string(7), "7");
    assert_eq!(decimal_string(26), "26");
    assert_eq!(decimal_string(4294967295), "4294967295");
}

#[test]
fn letters_give_their_alphabet_place() {
    assert_eq!(get_problem_id_from_filename("a").as_deref(), Some("1"));
    assert_eq!(get_problem_id_from_filename("A").as_deref(), Some("1"));
    assert_eq!(get_problem_id_from_filename("j").as_deref(), Some("10"));
    assert_eq!(get_problem_id_from_filename("z").as_deref(), Some("26"));
    assert_eq!(get_problem_id_from_filename("Z").as_deref(), Some("26"));
}

#[test]
fn upper_and_lower_case_agree() {
    for (l, u) in ('a'..='z').zip('A'..='Z') {
        assert_eq!(
            get_problem_id_from_filename(&l.to_string()),
            get_problem_id_from_filename(&u.to_string())
        );
    }
}

#[test]
fn other_names_give_no_id() {
    assert_eq!(get_problem_id_from_filename(""), None);
    assert_eq!(get_problem_id_from_filename("ab"), None);
    assert_eq!(get_problem_id_from_filename("1"), None);
    assert_eq!(get_problem_id_from_filename("_"), None);
    assert_eq!(get_problem_id_from_filename("é"), None);
    assert_eq!(get_problem_id_from_filename("source"), None);
}

#[test]
fn explicit_problem_id_wins() {
    let s = submission(Some("42"), "/x/b.cpp");
    assert_eq!(s.get_problem_id("/contest/a"), Ok("42".to_string()));
    assert_eq!(s.problem_id_from_stems(Some("a"), Some("b")), Ok("42".to_string()));
}

#[test]
fn directory_name_comes_before_file_name() {
    let s = submission(None, "/contest/c/b.cpp");
    assert_eq!(s.get_problem_id("/contest/c"), Ok("3".to_string()));
    assert_eq!(s.problem_id_from_stems(Some("c"), Some("b")), Ok("3".to_string()));
}

#[test]
fn file_name_is_guessed_from() {
    let s = submission(None, "/contest/b.cpp");
    assert_eq!(s.get_problem_id("/contest"), Ok("2".to_string()));
    assert_eq!(get_problem_id(&s, "/home/me/contest"), Ok("2".to_string()));
    assert_eq!(s.problem_id_from_stems(None, Some("b")), Ok("2".to_string()));
}

#[test]
fn missing_problem_id() {
    let s = submission(None, "/contest/source.cpp");
    assert_eq!(s.get_problem_id("/contest"), Err(Error::MissingProblemId));
    assert_eq!(s.problem_id_from_stems(None, None), Err(Error::MissingProblemId));
    assert_eq!(s.problem_id_from_stems(Some("xy"), Some("7")), Err(Error::MissingProblemId));
}

#[test]
fn trim_strips_surrounding_whitespace() {
    assert_eq!(trim("  alice\n"), "alice");
    assert_eq!(trim("\t bob \u{a0}"), "bob");
    assert_eq!(trim("carol"), "carol");
    assert_eq!(trim("a b"), "a b");
    assert_eq!(trim(" \n\t "), "");
    assert_eq!(trim(""), "");
}

#[test]
fn credentials_from_typed_input() {
    let c = UserpassCredentials::from_input("  user42 \n", " secret ".to_string());
    assert_eq!(c.username, "user42");
    assert_eq!(c.password, " secret ");
}

#[test]
fn url_parse_normalizes() {
    let u = ParsedUrl::parse("HTTP://Judge.Example").unwrap();
    assert_eq!(u.as_str(), "http://judge.example/");
    let again = ParsedUrl::parse(u.as_str()).unwrap();
    assert_eq!(again.as_str(), u.as_str());
}

#[test]
fn url_parse_errors() {
    assert_eq!(ParsedUrl::parse("no scheme").err(), Some(url::ParseError::RelativeUrlWithoutBase));
    assert_eq!(ParsedUrl::parse("http://").err(), Some(url::ParseError::EmptyHost));
}

#[test]
fn login_url_carries_contest_and_credentials() {
    let creds = UserpassCredentials { username: "me".to_string(), password: "p@ss word".to_string() };
    let u = cp_tool::login_url(&contest("http://judge.example/cgi-bin/new-client"), &creds).unwrap();
    assert_eq!(
        u.as_str(),
        "http://judge.example/cgi-bin/new-client?contest_id=7&login=me&password=p%40ss+word&action_2=Log+in"
    );
}

#[test]
fn login_url_keeps_existing_query() {
    let creds = UserpassCredentials { username: "u".to_string(), password: "p".to_string() };
    let u = cp_tool::login_url(&contest("https://j.example/x?lang=ru"), &creds).unwrap();
    assert_eq!(
        u.as_str(),
        "https://j.example/x?lang=ru&contest_id=7&login=u&password=p&action_2=Log+in"
    );
}

#[test]
fn login_url_bad_base() {
    let creds = UserpassCredentials { username: "u".to_string(), password: "p".to_string() };
    assert_eq!(
        cp_tool::login_url(&contest("judge"), &creds).err(),
        Some(Error::UrlParseError(url::ParseError::RelativeUrlWithoutBase))
    );
}

#[test]
fn query_pairs_decode() {
    let pairs = query_pairs(Some("a=1&b=x%20y&&c&d=e+f"));
    let expected: Vec<(String, String)> = vec![
        ("a".to_string(), "1".to_string()),
        ("b".to_string(), "x y".to_string()),
        ("c".to_string(), "".to_string()),
        ("d".to_string(), "e f".to_string()),
    ];
    assert_eq!(pairs, expected);
    assert!(query_pairs(Some("")).is_empty());
    assert!(query_pairs(None).is_empty());
}

#[test]
fn login_answer_gives_session() {
    let c = EjudgeClient::from_login_answer(
        &contest("http://judge.example/cgi-bin/new-client"),
        Some("SID=abc123&action=137"),
    )
    .unwrap();
    assert_eq!(c.session_id, "abc123");
    assert_eq!(c.base_url.as_str(), "http://judge.example/cgi-bin/new-client");
}

#[test]
fn login_answer_first_sid_wins_and_is_decoded() {
    let c = EjudgeClient::from_login_answer(
        &contest("http://judge.example/"),
        Some("x=1&SID=a%2Bb&SID=second"),
    )
    .unwrap();
    assert_eq!(c.session_id, "a+b");
}

#[test]
fn login_answer_without_session() {
    let info = contest("http://judge.example/");
    assert_eq!(
        EjudgeClient::from_login_answer(&info, Some("sid=lower&x=SID")).err(),
        Some(Error::MissingSessionId)
    );
    assert_eq!(EjudgeClient::from_login_answer(&info, None).err(), Some(Error::MissingSessionId));
}

#[test]
fn login_answer_bad_base_url() {
    assert_eq!(
        EjudgeClient::from_login_answer(&contest("nowhere"), Some("SID=1")).err(),
        Some(Error::UrlParseError(url::ParseError::RelativeUrlWithoutBase))
    );
}

#[test]
fn config_round_trip() {
    let c = EjudgeClient::from_config(config("http://judge.example/new-client?x=1", "s1")).unwrap();
    let cfg = c.get_config();
    assert_eq!(cfg.contest_url, "http://judge.example/new-client?x=1");
    assert_eq!(cfg.session_id, "s1");
    let c2 = EjudgeClient::from_config(cfg).unwrap();
    assert_eq!(c2.session_id, c.session_id);
    assert_eq!(c2.base_url.as_str(), c.base_url.as_str());
}

#[test]
fn config_is_normalized_once() {
    let c = EjudgeClient::from_config(config("http://JUDGE.example", "s")).unwrap();
    assert_eq!(c.get_config().contest_url, "http://judge.example/");
}

#[test]
fn config_with_bad_url() {
    assert_eq!(
        EjudgeClient::from_config(config("::", "s")).err(),
        Some(Error::UrlParseError(url::ParseError::RelativeUrlWithoutBase))
    );
}

#[test]
fn stored_config_dispatch() {
    let stored = config("http://j.example/", "abc").as_client_config();
    assert!(matches!(&stored, ClientConfig::Ejudge(c) if c.session_id == "abc"));
    let c = from_config(stored).unwrap();
    assert_eq!(c.session_id, "abc");
}

#[test]
fn nearest_loadable_config_wins() {
    let candidates = vec![
        None,
        Some(ClientConfig::Ejudge(config("not a url", "bad"))),
        Some(ClientConfig::Ejudge(config("http://near.example/", "near"))),
        Some(ClientConfig::Ejudge(config("http://far.example/", "far"))),
    ];
    let c = first_loadable(candidates).unwrap();
    assert_eq!(c.session_id, "near");
    assert_eq!(c.base_url.as_str(), "http://near.example/");
}

#[test]
fn no_loadable_config() {
    assert_eq!(first_loadable(vec![]).err(), Some(Error::MissingConfig));
    let candidates = vec![None, Some(ClientConfig::Ejudge(config("bad", "x"))), None];
    assert_eq!(first_loadable(candidates).err(), Some(Error::MissingConfig));
}

#[test]
fn submit_form_fields() {
    let c = EjudgeClient::from_config(config("http://j.example/", "S1D")).unwrap();
    let form = c.submit_form("3", "2", "int main() {}\n");
    let expected: Vec<(String, String)> = vec![
        ("prob_id".to_string(), "3".to_string()),
        ("lang_id".to_string(), "2".to_string()),
        ("file".to_string(), "int main() {}\n".to_string()),
        ("SID".to_string(), "S1D".to_string()),
        ("action_40".to_string(), "Send!".to_string()),
    ];
    assert_eq!(form, expected);
}

#[test]
fn saved_session_is_found_again() {
    let logged_in = EjudgeClient::from_login_answer(
        &contest("http://judge.example/cgi-bin/new-client"),
        Some("SID=f00d"),
    )
    .unwrap();
    let stored = logged_in.get_config().as_client_config();
    let found = first_loadable(vec![None, Some(stored)]).unwrap();
    assert_eq!(found.session_id, logged_in.session_id);
    assert_eq!(found.base_url.as_str(), logged_in.base_url.as_str());
}

#[test]
fn whitespace_agrees_with_std() {
    for n in 0..=0x10FFFFu32 {
        if let Some(c) = char::from_u32(n) {
            assert_eq!(is_whitespace(c), c.is_whitespace(), "U+{:04X}", n);
        }
    }
}

#[test]
fn trim_agrees_with_std() {
    for s in ["", " ", "x", " x ", "\u{3000}a b\u{2029}", "\u{85}z\t", "\u{180e}q\u{180e}"] {
        assert_eq!(trim(s), s.trim());
    }
}

#[test]
fn method_and_free_function_agree() {
    for (pid, dir, file) in [
        (None, "/contest/d", "/x/e.cpp"),
        (None, "/contest", "/x/e.cpp"),
        (None, "/contest", "/x/main.cpp"),
        (Some("9"), "/contest/d", "/x/e.cpp"),
    ] {
        let s = submission(pid, file);
        assert_eq!(s.get_problem_id(dir), get_problem_id(&s, dir));
    }
}

#[test]
fn plain_names_are_their_own_stems() {
    let s = submission(None, "b");
    assert_eq!(s.get_problem_id("c"), Ok("3".to_string()));
    assert_eq!(s.get_problem_id("contest"), Ok("2".to_string()));
    let s = submission(None, "main");
    assert_eq!(s.get_problem_id("contest"), Err(Error::MissingProblemId));
}

#[test]
fn search_one_directory_at_a_time() {
    let dirs = vec![
        None,
        Some(ClientConfig::Ejudge(config("bad", "x"))),
        Some(ClientConfig::Ejudge(config("http://a.example/", "a"))),
        Some(ClientConfig::Ejudge(config("http://b.example/", "b"))),
    ];
    let mut found = None;
    for d in dirs {
        if let Ok(c) = first_loadable(vec![d]) {
            found = Some(c);
            break;
        }
    }
    assert_eq!(found.unwrap().session_id, "a");
}
