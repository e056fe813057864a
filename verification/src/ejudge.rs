//! The ejudge judge system: its configuration, login request and answer, and
//! submission form.

use vstd::prelude::*;

use crate::errors::Error;
use crate::login::UserpassCredentials;
use crate::urls::{
    fits_url_offsets, form_urlencoded_pairs, is_url_serialization, query_pairs, url_parse, url_parse_with_params,
    ParsedUrl,
};

verus! {

/// Where an ejudge contest lives: the judge's base URL and the contest id.
pub struct UrlContestIDInfo {
    pub base_url: String,
    pub contest_id: String,
}

/// The stored state of an ejudge client.
pub struct Config {
    pub contest_url: String,
    pub session_id: String,
}

/// The contents of a `Config`.
pub struct ConfigView {
    pub contest_url: Seq<char>,
    pub session_id: Seq<char>,
}

impl View for Config {
    type V = ConfigView;

    open spec fn view(&self) -> ConfigView {
        ConfigView { contest_url: self.contest_url@, session_id: self.session_id@ }
    }
}

impl Clone for Config {
    fn clone(&self) -> (res: Self)
        ensures
            res@ == self@,
    {
        Config { contest_url: self.contest_url.clone(), session_id: self.session_id.clone() }
    }
}

/// A logged-in ejudge client: the session id and the contest URL.
pub struct EjudgeClient {
    pub session_id: String,
    pub base_url: ParsedUrl,
}

/// The same client under the name its module gives it.
pub type Client = EjudgeClient;

/// The contents of an `EjudgeClient`.
pub struct ClientView {
    pub session_id: Seq<char>,
    pub base_url: Seq<char>,
}

impl View for EjudgeClient {
    type V = ClientView;

    open spec fn view(&self) -> ClientView {
        ClientView { session_id: self.session_id@, base_url: self.base_url@ }
    }
}

/// The configuration that records a client's state.
pub open spec fn config_of(client: ClientView) -> ConfigView {
    ConfigView { contest_url: client.base_url, session_id: client.session_id }
}

/// The client that a configuration builds, or why it builds none.
pub open spec fn client_of(config: ConfigView) -> Result<ClientView, Error> {
    match url_parse(config.contest_url) {
        Ok(s) => Ok(ClientView { session_id: config.session_id, base_url: s }),
        Err(e) => Err(Error::UrlParseError(e)),
    }
}

/// The view of a result that holds a client.
pub open spec fn client_result_view(r: Result<EjudgeClient, Error>) -> Result<ClientView, Error> {
    match r {
        Ok(c) => Ok(c@),
        Err(e) => Err(e),
    }
}

/// The query parameters of the login request.
pub open spec fn login_params(
    contest_id: Seq<char>,
    username: Seq<char>,
    password: Seq<char>,
) -> Seq<(Seq<char>, Seq<char>)> {
    seq![
        ("contest_id"@, contest_id),
        ("login"@, username),
        ("password"@, password),
        ("action_2"@, "Log in"@),
    ]
}

/// The value of the first pair named `key`.
pub open spec fn first_value(pairs: Seq<(Seq<char>, Seq<char>)>, key: Seq<char>) -> Option<
    Seq<char>,
>
    decreases pairs.len(),
{
    if pairs.len() == 0 {
        None
    } else if pairs[0].0 == key {
        Some(pairs[0].1)
    } else {
        first_value(pairs.drop_first(), key)
    }
}

/// The session id that the judge's answer to a login carries in its URL query.
pub open spec fn session_of_answer(query: Option<Seq<char>>) -> Option<Seq<char>> {
    match query {
        Some(q) => first_value(form_urlencoded_pairs(q), "SID"@),
        None => None,
    }
}

/// The client that a login answer gives, or why it gives none.
pub open spec fn client_of_answer(base_url: Seq<char>, query: Option<Seq<char>>) -> Result<
    ClientView,
    Error,
> {
    match session_of_answer(query) {
        None => Err(Error::MissingSessionId),
        Some(sid) => match url_parse(base_url) {
            Ok(s) => Ok(ClientView { session_id: sid, base_url: s }),
            Err(e) => Err(Error::UrlParseError(e)),
        },
    }
}

/// The fields of the submission form.
pub open spec fn submit_fields(
    problem_id: Seq<char>,
    lang_id: Seq<char>,
    source: Seq<char>,
    session_id: Seq<char>,
) -> Seq<(Seq<char>, Seq<char>)> {
    seq![
        ("prob_id"@, problem_id),
        ("lang_id"@, lang_id),
        ("file"@, source),
        ("SID"@, session_id),
        ("action_40"@, "Send!"@),
    ]
}

/// A name/value pair of owned strings.
fn pair(name: &str, value: &str) -> (res: (String, String))
    ensures
        res.0@ == name@,
        res.1@ == value@,
{
    (String::from_str(name), String::from_str(value))
}

/// The query parameters of the login request.
pub fn login_params_vec(contest_info: &UrlContestIDInfo, credentials: &UserpassCredentials) -> (res: Vec<(String, String)>)
    ensures
        res.deep_view() == login_params(
            contest_info.contest_id@,
            credentials.username@,
            credentials.password@,
        ),
{
    let mut v: Vec<(String, String)> = Vec::new();
    v.push(pair("contest_id", contest_info.contest_id.as_str()));
    v.push(pair("login", credentials.username.as_str()));
    v.push(pair("password", credentials.password.as_str()));
    v.push(pair("action_2", "Log in"));
    assert(v.deep_view() =~= login_params(
        contest_info.contest_id@,
        credentials.username@,
        credentials.password@,
    ));
    v
}

/// The URL that logs in to the contest: the base URL with the contest id,
/// the credentials and the login action in its query.
///
/// The base URL and credentials must be small enough for the `url` crate
/// (see `fits_url_offsets`); it panics on larger ones.
pub fn login_url(contest_info: &UrlContestIDInfo, credentials: &UserpassCredentials) -> (res: Result<ParsedUrl, Error>)
    requires
        fits_url_offsets(
            contest_info.base_url@,
            login_params(contest_info.contest_id@, credentials.username@, credentials.password@),
        ),
    ensures
        match url_parse_with_params(
            contest_info.base_url@,
            login_params(contest_info.contest_id@, credentials.username@, credentials.password@),
        ) {
            Ok(s) => res matches Ok(u) && u@ == s,
            Err(e) => res == Err::<ParsedUrl, Error>(Error::UrlParseError(e)),
        },
        res is Ok <==> url_parse(contest_info.base_url@) is Ok,
        res matches Err(e) ==> url_parse(contest_info.base_url@) matches Err(p)
            && e == Error::UrlParseError(p),
{
    let params = login_params_vec(contest_info, credentials);
    match ParsedUrl::parse_with_params(contest_info.base_url.as_str(), &params) {
        Ok(u) => Ok(u),
        Err(e) => Err(Error::UrlParseError(e)),
    }
}

/// The value of the first pair named `key`.
fn find_value(pairs: &Vec<(String, String)>, key: &str) -> (res: Option<String>)
    ensures
        match res {
            Some(v) => first_value(pairs.deep_view(), key@) == Some(v@),
            None => first_value(pairs.deep_view(), key@) is None,
        },
{
    let ghost dv = pairs.deep_view();
    let key_string = String::from_str(key);
    let mut i: usize = 0;
    assert(dv.skip(0) =~= dv);
    while i < pairs.len()
        invariant
            dv == pairs.deep_view(),
            i <= pairs.len(),
            key_string@ == key@,
            first_value(dv, key@) == first_value(dv.skip(i as int), key@),
        decreases pairs.len() - i,
    {
        proof {
            assert(dv.skip(i as int)[0] == dv[i as int]);
            assert(dv.skip(i as int).drop_first() =~= dv.skip(i + 1));
        }
        if pairs[i].0 == key_string {
            return Some(pairs[i].1.clone());
        }
        i = i + 1;
    }
    None
}

impl EjudgeClient {
    /// Builds a client from a stored configuration.
    pub fn from_config(config: Config) -> (res: Result<EjudgeClient, Error>)
        ensures
            client_result_view(res) == client_of(config@),
    {
        match ParsedUrl::parse(config.contest_url.as_str()) {
            Ok(u) => Ok(EjudgeClient { session_id: config.session_id, base_url: u }),
            Err(e) => Err(Error::UrlParseError(e)),
        }
    }

    /// The configuration from which `from_config` rebuilds this client.
    pub fn get_config(&self) -> (res: Config)
        ensures
            res@ == config_of(self@),
            is_url_serialization(self.base_url@),
    {
        let url = self.base_url.as_str();
        Config { contest_url: String::from_str(url), session_id: self.session_id.clone() }
    }

    /// Builds the client from the judge's answer to a login: the session id
    /// is the value of the first `SID` pair in the query of the URL that the
    /// answer came from.
    pub fn from_login_answer(contest_info: &UrlContestIDInfo, answer_query: Option<&str>) -> (res: Result<EjudgeClient, Error>)
        ensures
            client_result_view(res) == client_of_answer(
                contest_info.base_url@,
                match answer_query {
                    Some(q) => Some(q@),
                    None => None,
                },
            ),
    {
        let pairs = query_pairs(answer_query);
        let sid = find_value(&pairs, "SID");
        proof {
            reveal_strlit("SID");
        }
        match sid {
            None => Err(Error::MissingSessionId),
            Some(session_id) => match ParsedUrl::parse(contest_info.base_url.as_str()) {
                Ok(u) => Ok(EjudgeClient { session_id, base_url: u }),
                Err(e) => Err(Error::UrlParseError(e)),
            },
        }
    }

    /// The fields of the form that submits `source` as a solution of
    /// `problem_id` in language `lang_id` within this client's session.
    pub fn submit_form(&self, problem_id: &str, lang_id: &str, source: &str) -> (res: Vec<(String, String)>)
        ensures
            res.deep_view() == submit_fields(problem_id@, lang_id@, source@, self.session_id@),
    {
        let mut v: Vec<(String, String)> = Vec::new();
        v.push(pair("prob_id", problem_id));
        v.push(pair("lang_id", lang_id));
        v.push(pair("file", source));
        v.push(pair("SID", self.session_id.as_str()));
        v.push(pair("action_40", "Send!"));
        assert(v.deep_view() =~= submit_fields(problem_id@, lang_id@, source@, self.session_id@));
        v
    }
}

/// A client's configuration rebuilds the same client.
pub proof fn lemma_config_round_trip(client: ClientView)
    requires
        is_url_serialization(client.base_url),
    ensures
        client_of(config_of(client)) == Ok::<ClientView, Error>(client),
{
}

/// A configuration that builds a client is stable from then on: the
/// client's own configuration builds the same client again.
pub proof fn lemma_config_normalizes(config: ConfigView)
    requires
        client_of(config) is Ok,
        is_url_serialization(client_of(config)->Ok_0.base_url),
    ensures
        client_of(config_of(client_of(config)->Ok_0)) == client_of(config),
        config_of(client_of(config)->Ok_0).session_id == config.session_id,
{
}

/// The login request carries, in this order, the contest id, the user name
/// and the password exactly as given, and the login action.
pub proof fn lemma_login_params_carry_inputs(
    contest_id: Seq<char>,
    username: Seq<char>,
    password: Seq<char>,
)
    ensures
        login_params(contest_id, username, password).len() == 4,
        login_params(contest_id, username, password)[0] == ("contest_id"@, contest_id),
        login_params(contest_id, username, password)[1] == ("login"@, username),
        login_params(contest_id, username, password)[2] == ("password"@, password),
        login_params(contest_id, username, password)[3] == ("action_2"@, "Log in"@),
        first_value(login_params(contest_id, username, password), "contest_id"@) == Some(
            contest_id,
        ),
{
}

/// The submission form carries, in this order, the problem id, the language,
/// the source and the session id exactly as given, and the send action.
pub proof fn lemma_submit_fields_carry_inputs(
    problem_id: Seq<char>,
    lang_id: Seq<char>,
    source: Seq<char>,
    session_id: Seq<char>,
)
    ensures
        submit_fields(problem_id, lang_id, source, session_id).len() == 5,
        submit_fields(problem_id, lang_id, source, session_id)[0] == ("prob_id"@, problem_id),
        submit_fields(problem_id, lang_id, source, session_id)[1] == ("lang_id"@, lang_id),
        submit_fields(problem_id, lang_id, source, session_id)[2] == ("file"@, source),
        submit_fields(problem_id, lang_id, source, session_id)[3] == ("SID"@, session_id),
        submit_fields(problem_id, lang_id, source, session_id)[4] == ("action_40"@, "Send!"@),
        first_value(submit_fields(problem_id, lang_id, source, session_id), "prob_id"@) == Some(
            problem_id,
        ),
{
}

/// `first_value(pairs, key)` is the whole value of the earliest pair named
/// `key`, and `None` exactly when no pair is named `key`.
pub proof fn lemma_first_value_is_earliest(pairs: Seq<(Seq<char>, Seq<char>)>, key: Seq<char>)
    ensures
        match first_value(pairs, key) {
            Some(v) => exists|i: int|
                0 <= i < pairs.len() && #[trigger] pairs[i] == (key, v) && forall|j: int|
                    0 <= j < i ==> (#[trigger] pairs[j]).0 != key,
            None => forall|i: int| 0 <= i < pairs.len() ==> (#[trigger] pairs[i]).0 != key,
        },
    decreases pairs.len(),
{
    if pairs.len() > 0 {
        let r = pairs.drop_first();
        lemma_first_value_is_earliest(r, key);
        if pairs[0].0 == key {
            assert(pairs[0] == (key, pairs[0].1));
        } else {
            match first_value(r, key) {
                Some(v) => {
                    let i = choose|i: int|
                        0 <= i < r.len() && #[trigger] r[i] == (key, v) && forall|j: int|
                            0 <= j < i ==> (#[trigger] r[j]).0 != key;
                    assert(pairs[i + 1] == r[i]);
                    assert forall|j: int| 0 <= j < i + 1 implies (#[trigger] pairs[j]).0 != key by {
                        if j > 0 {
                            assert(pairs[j] == r[j - 1]);
                        }
                    }
                },
                None => {
                    assert forall|i: int| 0 <= i < pairs.len() implies (#[trigger] pairs[i]).0
                        != key by {
                        if i > 0 {
                            assert(pairs[i] == r[i - 1]);
                        }
                    }
                },
            }
        }
    }
}

/// The session of a login answer is the whole value of the first `SID` pair
/// of the answer's query, and the client's URL is the parsed base URL; an
/// answer without any `SID` pair gives `MissingSessionId`.
pub proof fn lemma_login_answer_session(base_url: Seq<char>, query: Seq<char>)
    ensures
        client_of_answer(base_url, Some(query)) matches Ok(c) ==> {
            &&& exists|i: int|
                0 <= i < form_urlencoded_pairs(query).len()
                    && #[trigger] form_urlencoded_pairs(query)[i] == ("SID"@, c.session_id)
                    && forall|j: int|
                    0 <= j < i ==> (#[trigger] form_urlencoded_pairs(query)[j]).0 != "SID"@
            &&& url_parse(base_url) == Ok::<Seq<char>, url::ParseError>(c.base_url)
        },
        (forall|i: int|
            0 <= i < form_urlencoded_pairs(query).len() ==> (#[trigger] form_urlencoded_pairs(
                query,
            )[i]).0 != "SID"@) ==> client_of_answer(base_url, Some(query)) == Err::<
            ClientView,
            Error,
        >(Error::MissingSessionId),
        (exists|i: int|
            0 <= i < form_urlencoded_pairs(query).len() && (#[trigger] form_urlencoded_pairs(
                query,
            )[i]).0 == "SID"@) && url_parse(base_url) is Ok ==> client_of_answer(
            base_url,
            Some(query),
        ) is Ok,
{
    lemma_first_value_is_earliest(form_urlencoded_pairs(query), "SID"@);
}

} // verus!
