//! Judge-independent pieces: the submission, the stored configuration of any
//! judge, and the search for a configuration that builds a client.

use vstd::prelude::*;

use crate::ejudge::{
    client_of, client_result_view, config_of, lemma_config_round_trip, ClientView, Config,
    ConfigView, EjudgeClient,
};
use crate::urls::is_url_serialization;
use crate::errors::Error;
use crate::problem::{
    get_problem_id_from_filename, opt_str_view, opt_view, problem_id_of_stem,
};

verus! {

/// A solution to submit: the problem (when given), the language and the
/// path of the source file.
pub struct Submission {
    pub problem_id: Option<String>,
    pub lang_id: String,
    pub file: String,
}

/// The problem id that a submission goes to, given the names (file stems)
/// of the current directory and of the submitted file: the id given
/// explicitly wins; else the directory name, then the file name, is guessed
/// from; else there is none.
pub open spec fn chosen_problem_id(
    explicit: Option<Seq<char>>,
    dir_stem: Option<Seq<char>>,
    file_stem: Option<Seq<char>>,
) -> Result<Seq<char>, Error> {
    match explicit {
        Some(p) => Ok(p),
        None => match problem_id_of_stem(dir_stem) {
            Some(id) => Ok(id),
            None => match problem_id_of_stem(file_stem) {
                Some(id) => Ok(id),
                None => Err(Error::MissingProblemId),
            },
        },
    }
}

/// The view of a result that holds a string.
pub open spec fn string_result_view(r: Result<String, Error>) -> Result<Seq<char>, Error> {
    match r {
        Ok(s) => Ok(s@),
        Err(e) => Err(e),
    }
}

/// What `std::path::Path::file_stem` gives for a path, with the path syntax
/// of the platform the library is built for.
pub uninterp spec fn file_stem_of(path: Seq<char>) -> Option<Seq<char>>;

/// A path of a single plain name: no character that any platform reads as
/// a separator or a drive prefix, and no dot.
pub open spec fn is_plain_name(path: Seq<char>) -> bool {
    &&& path.len() > 0
    &&& forall|i: int|
        0 <= i < path.len() ==> #[trigger] path[i] != '/' && path[i] != '\\' && path[i] != ':'
            && path[i] != '.'
}

/// Calls `std::path::Path::file_stem` on a path.
///
/// Trusted: the stem is the one named `file_stem_of`; a plain name is its
/// own stem, as the documentation says of a file name without an embedded
/// `.` (the name is then the path's only component on every platform). The
/// stem of a `&str` path is valid UTF-8, so the lossy conversion keeps it.
#[verifier::external_body]
fn path_file_stem(path: &str) -> (res: Option<String>)
    ensures
        opt_view(res) == file_stem_of(path@),
        is_plain_name(path@) ==> opt_view(res) == Some(path@),
{
    std::path::Path::new(path).file_stem().map(|s| s.to_string_lossy().into_owned())
}

impl Submission {
    /// The problem id, given the stems of the current directory and of the
    /// submitted file.
    pub fn problem_id_from_stems(&self, dir_stem: Option<&str>, file_stem: Option<&str>) -> (res: Result<String, Error>)
        ensures
            string_result_view(res) == chosen_problem_id(
                opt_view(self.problem_id),
                opt_str_view(dir_stem),
                opt_str_view(file_stem),
            ),
    {
        if let Some(pid) = &self.problem_id {
            return Ok(pid.clone());
        }
        if let Some(name) = dir_stem {
            if let Some(id) = get_problem_id_from_filename(name) {
                return Ok(id);
            }
        }
        if let Some(name) = file_stem {
            if let Some(id) = get_problem_id_from_filename(name) {
                return Ok(id);
            }
        }
        Err(Error::MissingProblemId)
    }

    /// The problem id: the one given, or else the one guessed from the name
    /// of the directory `current_dir`, or else from the submitted file's name.
    pub fn get_problem_id(&self, current_dir: &str) -> (res: Result<String, Error>)
        ensures
            string_result_view(res) == chosen_problem_id(
                opt_view(self.problem_id),
                file_stem_of(current_dir@),
                file_stem_of(self.file@),
            ),
    {
        if let Some(pid) = &self.problem_id {
            return Ok(pid.clone());
        }
        let dir_stem = path_file_stem(current_dir);
        let file_stem = path_file_stem(self.file.as_str());
        let dir_name: Option<&str> = match &dir_stem {
            Some(s) => Some(s.as_str()),
            None => None,
        };
        let file_name: Option<&str> = match &file_stem {
            Some(s) => Some(s.as_str()),
            None => None,
        };
        self.problem_id_from_stems(dir_name, file_name)
    }
}

/// The problem id of a submission (see `Submission::get_problem_id`).
pub fn get_problem_id(submission: &Submission, current_dir: &str) -> (res: Result<String, Error>)
    ensures
        string_result_view(res) == chosen_problem_id(
            opt_view(submission.problem_id),
            file_stem_of(current_dir@),
            file_stem_of(submission.file@),
        ),
{
    submission.get_problem_id(current_dir)
}

/// The stored configuration of a client of some judge system.
pub enum ClientConfig {
    Ejudge(Config),
}

/// The contents of a `ClientConfig`.
pub enum ClientConfigView {
    Ejudge(ConfigView),
}

impl View for ClientConfig {
    type V = ClientConfigView;

    open spec fn view(&self) -> ClientConfigView {
        match self {
            ClientConfig::Ejudge(c) => ClientConfigView::Ejudge(c@),
        }
    }
}

/// Turns a judge's own configuration into the stored form.
pub trait AsClientConfig {
    fn as_client_config(self) -> ClientConfig;
}

impl AsClientConfig for Config {
    fn as_client_config(self) -> (res: ClientConfig)
        ensures
            res@ == ClientConfigView::Ejudge(self@),
    {
        ClientConfig::Ejudge(self)
    }
}

/// The client that a stored configuration builds, or why it builds none.
pub open spec fn client_of_stored(config: ClientConfigView) -> Result<ClientView, Error> {
    match config {
        ClientConfigView::Ejudge(c) => client_of(c),
    }
}

/// Builds the client of the judge system that the configuration names.
pub fn from_config(config: ClientConfig) -> (res: Result<EjudgeClient, Error>)
    ensures
        client_result_view(res) == client_of_stored(config@),
{
    match config {
        ClientConfig::Ejudge(c) => EjudgeClient::from_config(c),
    }
}

/// The client built from the first candidate that holds a configuration
/// which builds one; `MissingConfig` when none does.
pub open spec fn first_client(candidates: Seq<Option<ClientConfig>>) -> Result<ClientView, Error>
    decreases candidates.len(),
{
    if candidates.len() == 0 {
        Err(Error::MissingConfig)
    } else {
        match candidates[0] {
            Some(c) => match client_of_stored(c@) {
                Ok(client) => Ok(client),
                Err(_) => first_client(candidates.drop_first()),
            },
            None => first_client(candidates.drop_first()),
        }
    }
}

/// Picks the client from the configurations found in the scanned
/// directories, nearest first (`None` where a directory holds no readable
/// configuration).
pub fn first_loadable(candidates: Vec<Option<ClientConfig>>) -> (res: Result<EjudgeClient, Error>)
    ensures
        client_result_view(res) == first_client(candidates@),
{
    let ghost all = candidates@;
    let mut rest = candidates;
    while rest.len() > 0
        invariant
            all == candidates@,
            first_client(all) == first_client(rest@),
        decreases rest.len(),
    {
        let ghost before = rest@;
        let candidate = rest.remove(0);
        proof {
            assert(rest@ =~= before.drop_first());
            assert(candidate == before[0]);
        }
        if let Some(config) = candidate {
            if let Ok(client) = from_config(config) {
                return Ok(client);
            }
        }
    }
    Err(Error::MissingConfig)
}

/// A client's configuration, stored in the judge-independent form, builds
/// the same client again: what a login saves, a later search loads.
pub proof fn lemma_stored_config_round_trip(client: ClientView)
    requires
        is_url_serialization(client.base_url),
    ensures
        client_of_stored(ClientConfigView::Ejudge(config_of(client))) == Ok::<ClientView, Error>(
            client,
        ),
{
    lemma_config_round_trip(client);
}

/// Searching one directory at a time gives what searching them all at once
/// gives: the first entry's own answer when it builds a client, else the
/// answer for the entries after it.
pub proof fn lemma_search_one_at_a_time(
    entry: Option<ClientConfig>,
    candidates: Seq<Option<ClientConfig>>,
)
    ensures
        first_client(seq![entry] + candidates) == match first_client(seq![entry]) {
            Ok(client) => Ok(client),
            Err(_) => first_client(candidates),
        },
{
    assert((seq![entry] + candidates).drop_first() =~= candidates);
    assert(seq![entry].drop_first() =~= Seq::<Option<ClientConfig>>::empty());
    assert(first_client(Seq::<Option<ClientConfig>>::empty()) is Err);
    assert(first_client(seq![entry]) == first_client(seq![entry] + candidates) || first_client(
        seq![entry],
    ) is Err);
}

/// The nearest directory's configuration wins: a candidate list whose first
/// entry builds a client gives that client, whatever follows.
pub proof fn lemma_nearest_config_wins(candidates: Seq<Option<ClientConfig>>)
    requires
        candidates.len() > 0,
        candidates[0] matches Some(c) && client_of_stored(c@) is Ok,
    ensures
        first_client(candidates) == client_of_stored(candidates[0]->0@),
{
}

/// Entries that build no client are passed over: putting one in front
/// changes nothing.
pub proof fn lemma_unusable_config_skipped(
    entry: Option<ClientConfig>,
    candidates: Seq<Option<ClientConfig>>,
)
    requires
        entry matches Some(c) ==> client_of_stored(c@) is Err,
    ensures
        first_client(seq![entry] + candidates) == first_client(candidates),
{
    assert((seq![entry] + candidates).drop_first() =~= candidates);
}

/// The problem id given explicitly is used unchanged whatever the names; the
/// directory's name is guessed from before the file's; `MissingProblemId`
/// comes exactly when no id is given and neither name stands for a problem.
pub proof fn lemma_problem_id_precedence(
    explicit: Option<Seq<char>>,
    dir_stem: Option<Seq<char>>,
    file_stem: Option<Seq<char>>,
)
    ensures
        explicit matches Some(p) ==> chosen_problem_id(explicit, dir_stem, file_stem) == Ok::<
            Seq<char>,
            Error,
        >(p),
        explicit is None ==> match problem_id_of_stem(dir_stem) {
            Some(id) => chosen_problem_id(explicit, dir_stem, file_stem) == Ok::<Seq<char>, Error>(
                id,
            ),
            None => match problem_id_of_stem(file_stem) {
                Some(id) => chosen_problem_id(explicit, dir_stem, file_stem) == Ok::<
                    Seq<char>,
                    Error,
                >(id),
                None => true,
            },
        },
        chosen_problem_id(explicit, dir_stem, file_stem) is Err <==> (explicit is None
            && problem_id_of_stem(dir_stem) is None && problem_id_of_stem(file_stem) is None),
        chosen_problem_id(explicit, dir_stem, file_stem) matches Err(e) ==> e
            == Error::MissingProblemId,
{
}

} // verus!
