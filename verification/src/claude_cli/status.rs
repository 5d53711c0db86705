//! Availability of the AI features: picking the access token out of the
//! desktop assistant's credentials file, mapping what was found to a status, and
//! caching that status.
use vstd::prelude::*;

use crate::claude_cli::types::{ClaudeCredentials, ClaudeError, ClaudeStatus};
use crate::json::{escape_pointer_token, json_object_keys, json_object_keys_at, json_str, json_string_at, pointer_token};

verus! {

/// The version label reported when credentials are available.
pub const CLAUDE_CODE_VERSION: &'static str = "Desktop assistant";

/// Message of the status reported when no usable installation was found.
pub const NOT_INSTALLED_MESSAGE: &'static str = "Desktop assistant not found. Install it and sign in to use AI features with your subscription.";

/// Message of the error for a missing credentials file.
pub const NO_CREDENTIALS_FILE_MESSAGE: &'static str = "Desktop assistant not found. Install it and sign in to use AI features.";

/// Message of the error for a credentials file without an access token.
pub const NO_ACCESS_TOKEN_MESSAGE: &'static str = "No access token in the desktop assistant's credentials. Sign in to it to use AI features.";

/// What the credentials file holds that matters: the access tokens it
/// offers, in the places the file may put them.
pub struct CredentialsFile {
    /// `claudeAiOauth.accessToken`, when it is a string.
    pub oauth_access_token: Option<String>,
    /// `claudeAiOauth.<key>.accessToken` for each entry of `claudeAiOauth`,
    /// in the order of the entries (`None` where the entry has no string token).
    pub oauth_entry_tokens: Vec<Option<String>>,
    /// The top-level `accessToken`, when it is a string.
    pub access_token: Option<String>,
}

/// The places a token may come from, in the order they are tried.
pub open spec fn token_candidates(f: CredentialsFile) -> Seq<Option<String>> {
    seq![f.oauth_access_token] + f.oauth_entry_tokens@ + seq![f.access_token]
}

/// True when a candidate holds a non-empty token.
pub open spec fn is_usable_token(c: Option<String>) -> bool {
    c is Some && c->0@.len() > 0
}

/// The index of the first usable candidate at or after `from`, if any.
pub open spec fn first_usable_from(cands: Seq<Option<String>>, from: int) -> Option<int>
    decreases cands.len() - from,
{
    if from < 0 || from >= cands.len() {
        None
    } else if is_usable_token(cands[from]) {
        Some(from)
    } else {
        first_usable_from(cands, from + 1)
    }
}

/// The credentials a file gives: the first non-empty token, trying the
/// flat OAuth token, then the OAuth entries, then the top-level token. A
/// missing file is `NotFound`; a file without a token is `NotAuthenticated`.
pub open spec fn credentials_outcome(
    file: Option<CredentialsFile>,
    r: Result<ClaudeCredentials, ClaudeError>,
) -> bool {
    match file {
        None => r matches Err(ClaudeError::NotFound(m)) && m@ == NO_CREDENTIALS_FILE_MESSAGE@,
        Some(f) => match first_usable_from(token_candidates(f), 0) {
            Some(k) => r matches Ok(c) && Some(c.access_token) == token_candidates(f)[k],
            None => r matches Err(ClaudeError::NotAuthenticated(m)) && m@
                == NO_ACCESS_TOKEN_MESSAGE@,
        },
    }
}

proof fn lemma_first_usable_in_range(cands: Seq<Option<String>>, from: int)
    ensures
        match first_usable_from(cands, from) {
            Some(k) => from <= k < cands.len() && is_usable_token(cands[k]) && forall|j: int|
                from <= j < k ==> !is_usable_token(#[trigger] cands[j]),
            None => forall|j: int|
                0 <= from <= j < cands.len() ==> !is_usable_token(#[trigger] cands[j]),
        },
    decreases cands.len() - from,
{
    if from < 0 || from >= cands.len() {
    } else if is_usable_token(cands[from]) {
    } else {
        lemma_first_usable_in_range(cands, from + 1);
    }
}

/// The first usable candidate among `cands` from position `from` on, by
/// looking at each in turn.
fn first_usable_token(cands: &Vec<Option<String>>, from: usize) -> (r: Option<usize>)
    requires
        from <= cands@.len(),
    ensures
        match r {
            Some(k) => from <= k < cands@.len() && is_usable_token(cands@[k as int]) && forall|
                j: int,
            |
                from <= j < k ==> !is_usable_token(#[trigger] cands@[j]),
            None => forall|j: int| from <= j < cands@.len() ==> !is_usable_token(#[trigger] cands@[j]),
        },
{
    let mut i = from;
    while i < cands.len()
        invariant
            from <= i <= cands@.len(),
            forall|j: int| from <= j < i ==> !is_usable_token(#[trigger] cands@[j]),
        decreases cands@.len() - i,
    {
        match &cands[i] {
            Some(t) => {
                if t.as_str().unicode_len() > 0 {
                    return Some(i);
                }
            },
            None => {},
        }
        i = i + 1;
    }
    None
}

/// Where the OAuth section of the credentials file sits.
pub const OAUTH_POINTER: &'static str = "/claudeAiOauth";

/// Where the flat OAuth token sits.
pub const OAUTH_TOKEN_POINTER: &'static str = "/claudeAiOauth/accessToken";

/// Where the top-level token sits.
pub const TOP_TOKEN_POINTER: &'static str = "/accessToken";

/// The pointer to the token of the OAuth entry named `key`.
pub open spec fn entry_token_pointer(key: Seq<char>) -> Seq<char> {
    OAUTH_POINTER@ + "/"@ + pointer_token(key) + "/accessToken"@
}

/// The tokens of the OAuth entries named `keys`, in order.
pub open spec fn entry_tokens(contents: Seq<char>, keys: Seq<Seq<char>>) -> Seq<Option<Seq<char>>> {
    keys.map_values(|k: Seq<char>| json_string_at(contents, entry_token_pointer(k)))
}

/// The view of an optional string.
pub open spec fn opt_view(o: Option<String>) -> Option<Seq<char>> {
    match o {
        Some(s) => Some(s@),
        None => None,
    }
}

/// What the text of a credentials file offers: the flat OAuth token, the
/// token of each OAuth entry in the order of the entries, and the
/// top-level token; nothing of a text that is not JSON.
pub open spec fn file_from_json(contents: Seq<char>, f: CredentialsFile) -> bool {
    &&& opt_view(f.oauth_access_token) == json_string_at(contents, OAUTH_TOKEN_POINTER@)
    &&& opt_view(f.access_token) == json_string_at(contents, TOP_TOKEN_POINTER@)
    &&& f.oauth_entry_tokens@.map_values(|t: Option<String>| opt_view(t)) == match json_object_keys_at(
        contents,
        OAUTH_POINTER@,
    ) {
        Some(keys) => entry_tokens(contents, keys),
        None => Seq::empty(),
    }
}

/// Reads the tokens out of the text of a credentials file.
pub fn credentials_file_from_json(contents: &str) -> (r: CredentialsFile)
    ensures
        file_from_json(contents@, r),
{
    let keys = match json_object_keys(contents, OAUTH_POINTER) {
        Some(k) => k,
        None => Vec::new(),
    };
    let ghost kv = keys@.map_values(|s: String| s@);
    let mut tokens: Vec<Option<String>> = Vec::new();
    let mut i: usize = 0;
    while i < keys.len()
        invariant
            i <= keys@.len(),
            kv == keys@.map_values(|s: String| s@),
            tokens@.map_values(|t: Option<String>| opt_view(t)) == entry_tokens(contents@, kv.take(i as int)),
        decreases keys@.len() - i,
    {
        let mut p = String::from_str(OAUTH_POINTER);
        p.append("/");
        p.append(escape_pointer_token(keys[i].as_str()).as_str());
        p.append("/accessToken");
        let t = json_str(contents, p.as_str());
        assert(kv[i as int] == keys@[i as int]@);
        assert(p@ == entry_token_pointer(kv[i as int]));
        assert(opt_view(t) == json_string_at(contents@, entry_token_pointer(kv[i as int])));
        let ghost before = tokens@;
        tokens.push(t);
        assert(tokens@ == before.push(t));
        assert(kv.take(i + 1) =~= kv.take(i as int).push(kv[i as int]));
        let ghost lhs = tokens@.map_values(|t: Option<String>| opt_view(t));
        let ghost old_lhs = before.map_values(|t: Option<String>| opt_view(t));
        let ghost rhs = entry_tokens(contents@, kv.take(i + 1));
        let ghost old_rhs = entry_tokens(contents@, kv.take(i as int));
        assert(old_lhs == old_rhs);
        assert(kv.len() == keys@.len());
        assert(kv.take(i as int).len() == i);
        assert(old_rhs.len() == i);
        assert(before.len() == old_lhs.len());
        assert(rhs.len() == i + 1);
        assert(lhs.len() == rhs.len());
        assert forall|j: int| 0 <= j < lhs.len() implies lhs[j] == rhs[j] by {
            if j < i {
                assert(lhs[j] == old_lhs[j]);
                assert(rhs[j] == old_rhs[j]);
            }
        }
        assert(lhs =~= rhs);
        i = i + 1;
    }
    assert(kv.take(keys@.len() as int) =~= kv);
    proof {
        match json_object_keys_at(contents@, OAUTH_POINTER@) {
            Some(ks) => {
                assert(ks == kv);
            },
            None => {
                assert(kv =~= Seq::<Seq<char>>::empty());
                assert(entry_tokens(contents@, kv) =~= Seq::<Option<Seq<char>>>::empty());
            },
        }
    }
    let oauth = json_str(contents, OAUTH_TOKEN_POINTER);
    let top = json_str(contents, TOP_TOKEN_POINTER);
    assert(opt_view(oauth) == json_string_at(contents@, OAUTH_TOKEN_POINTER@));
    assert(opt_view(top) == json_string_at(contents@, TOP_TOKEN_POINTER@));
    CredentialsFile { oauth_access_token: oauth, oauth_entry_tokens: tokens, access_token: top }
}

/// The credentials the text of a credentials file gives: the tokens it
/// offers are tried as `credentials_from_file` does.
pub fn credentials_from_json(contents: &str) -> (r: Result<ClaudeCredentials, ClaudeError>)
    ensures
        exists|f: CredentialsFile| file_from_json(contents@, f) && credentials_outcome(Some(f), r),
{
    let f = credentials_file_from_json(contents);
    let ghost g = f;
    let r = credentials_from_file(Some(f));
    assert(file_from_json(contents@, g) && credentials_outcome(Some(g), r));
    r
}

/// Picks the credentials out of the credentials file (`None` when there is
/// no such file).
pub fn credentials_from_file(file: Option<CredentialsFile>) -> (r: Result<
    ClaudeCredentials,
    ClaudeError,
>)
    ensures
        credentials_outcome(file, r),
{
    match file {
        None => Err(ClaudeError::NotFound(String::from_str(NO_CREDENTIALS_FILE_MESSAGE))),
        Some(f) => {
            let ghost cands = token_candidates(f);
            let mut all: Vec<Option<String>> = Vec::new();
            all.push(f.oauth_access_token);
            let mut rest = f.oauth_entry_tokens;
            all.append(&mut rest);
            all.push(f.access_token);
            assert(all@ =~= cands);
            proof {
                lemma_first_usable_in_range(cands, 0);
            }
            match first_usable_token(&all, 0) {
                Some(k) => {
                    proof {
                        if first_usable_from(cands, 0) != Some(k as int) {
                            let k2 = first_usable_from(cands, 0)->0;
                            assert(!is_usable_token(cands[k2]) || !is_usable_token(cands[k as int]));
                        }
                    }
                    let chosen = all.remove(k);
                    match chosen {
                        Some(t) => Ok(ClaudeCredentials { access_token: t }),
                        None => Err(ClaudeError::NotAuthenticated(String::from_str(NO_ACCESS_TOKEN_MESSAGE))),
                    }
                },
                None => Err(ClaudeError::NotAuthenticated(String::from_str(NO_ACCESS_TOKEN_MESSAGE))),
            }
        },
    }
}

/// The status that the outcome of loading the credentials stands for:
/// credentials mean ready, a `NotAuthenticated` error keeps its message,
/// any other error means not installed.
pub open spec fn status_for(loaded: Result<ClaudeCredentials, ClaudeError>, s: ClaudeStatus) -> bool {
    match loaded {
        Ok(_) => s matches ClaudeStatus::Ready { version } && version@ == CLAUDE_CODE_VERSION@,
        Err(ClaudeError::NotAuthenticated(m)) => s matches ClaudeStatus::NotAuthenticated {
            version,
            message,
        } && version@ == CLAUDE_CODE_VERSION@ && message == m,
        Err(_) => s matches ClaudeStatus::NotInstalled { message } && message@
            == NOT_INSTALLED_MESSAGE@,
    }
}

/// The availability status for the outcome of loading the credentials.
pub fn check_api_configured(loaded: Result<ClaudeCredentials, ClaudeError>) -> (r: ClaudeStatus)
    ensures
        status_for(loaded, r),
{
    match loaded {
        Ok(_) => ClaudeStatus::Ready { version: String::from_str(CLAUDE_CODE_VERSION) },
        Err(ClaudeError::NotAuthenticated(m)) => ClaudeStatus::NotAuthenticated {
            version: String::from_str(CLAUDE_CODE_VERSION),
            message: m,
        },
        Err(_) => ClaudeStatus::NotInstalled { message: String::from_str(NOT_INSTALLED_MESSAGE) },
    }
}

/// The cached status, or, when nothing is cached, the status for freshly
/// loaded credentials, which is then cached. `load` is called only when
/// nothing is cached.
pub fn get_claude_status<F>(cache: &mut Option<ClaudeStatus>, load: F) -> (r: ClaudeStatus) where
    F: FnOnce() -> Result<ClaudeCredentials, ClaudeError>,

    requires
        call_requires(load, ()),
    ensures
        match *old(cache) {
            Some(s) => r == s && *final(cache) == *old(cache),
            None => (exists|l: Result<ClaudeCredentials, ClaudeError>|
                call_ensures(load, (), l) && status_for(l, r)) && *final(cache) == Some(r),
        },
{
    match cache {
        Some(s) => s.clone(),
        None => {
            let loaded = load();
            let status = check_api_configured(loaded);
            *cache = Some(status.clone());
            status
        },
    }
}

/// Forgets the cached status and computes it afresh from `load`.
pub fn refresh_claude_status<F>(cache: &mut Option<ClaudeStatus>, load: F) -> (r: ClaudeStatus) where
    F: FnOnce() -> Result<ClaudeCredentials, ClaudeError>,

    requires
        call_requires(load, ()),
    ensures
        exists|l: Result<ClaudeCredentials, ClaudeError>|
            call_ensures(load, (), l) && status_for(l, r),
        *final(cache) == Some(r),
{
    *cache = None;
    get_claude_status(cache, load)
}

} // verus!
