//! Secrets fetched from Doppler at start-up and fed to the configuration as
//! one more source.
//!
//! Doppler names a setting `CAFE__SERVICE__PLATFORM_API_KEY`; the
//! configuration knows it as `service.platform_api_key`.

use vstd::prelude::*;
use crate::config::{header_views, opt_view};
use crate::text::{
    chars_of, eq_ignore_ascii_case, eq_ignore_ascii_case_chars, lowercase, replace_all,
    replace_chars, string_of, to_lowercase,
};

verus! {

/// The configuration path of a Doppler secret name: `CAFE__` removed, each
/// remaining `__` made a `.`, the whole lower-cased.
pub open spec fn config_path(key: Seq<char>) -> Seq<char> {
    lowercase(replace_all(replace_all(key, "CAFE__"@, ""@), "__"@, "."@))
}

/// The configuration path of a Doppler secret name.
pub fn secret_path(key: &str) -> (r: String)
    ensures
        r@ == config_path(key@),
{
    let k = chars_of(key);
    let cafe = chars_of("CAFE__");
    let empty = chars_of("");
    let sep = chars_of("__");
    let dot = chars_of(".");
    proof {
        reveal_strlit("CAFE__");
        reveal_strlit("__");
    }
    let stripped = replace_chars(k.as_slice(), cafe.as_slice(), empty.as_slice());
    let dotted = replace_chars(stripped.as_slice(), sep.as_slice(), dot.as_slice());
    let s = string_of(dotted.as_slice());
    to_lowercase(s.as_str())
}

/// Whether no name occurs twice among the pairs.
pub open spec fn names_distinct(s: Seq<(Seq<char>, Seq<char>)>) -> bool {
    forall|i: int, j: int| #![trigger s[i], s[j]] 0 <= i < j < s.len() ==> s[i].0 != s[j].0
}

/// The value that the last pair named `name` holds: what a map filled with
/// the pairs in order keeps for that name.
pub open spec fn last_value(s: Seq<(Seq<char>, Seq<char>)>, name: Seq<char>) -> Option<Seq<char>>
    decreases s.len(),
{
    if s.len() == 0 {
        None
    } else if s.last().0 == name {
        Some(s.last().1)
    } else {
        last_value(s.drop_last(), name)
    }
}

/// Secrets, each under its Doppler name; no name occurs twice.
pub struct DopplerSource {
    secrets: Vec<(String, String)>,
}

impl DopplerSource {
    #[verifier::type_invariant]
    spec fn names_unique(self) -> bool {
        names_distinct(header_views(self.secrets@))
    }

    /// A source holding these secrets. A name given twice keeps the value it
    /// was given last, as a map filled with the pairs in order would.
    pub fn new(secrets: Vec<(String, String)>) -> (r: Self)
        ensures
            names_distinct(r.secrets()),
            forall|k: int|
                0 <= k < r.secrets().len() ==> last_value(header_views(secrets@), #[trigger] r.secrets()[k].0)
                    == Some(r.secrets()[k].1),
            forall|n: Seq<char>|
                #[trigger] last_value(header_views(secrets@), n) is Some ==> exists|k: int|
                    0 <= k < r.secrets().len() && r.secrets()[k].0 == n,
    {
        let ghost input = header_views(secrets@);
        let mut out: Vec<(String, String)> = Vec::new();
        let mut i: usize = 0;
        while i < secrets.len()
            invariant
                input == header_views(secrets@),
                i <= secrets@.len(),
                names_distinct(header_views(out@)),
                forall|k: int|
                    0 <= k < out@.len() ==> last_value(input.take(i as int), #[trigger] header_views(out@)[k].0)
                        == Some(header_views(out@)[k].1),
                forall|n: Seq<char>|
                    #[trigger] last_value(input.take(i as int), n) is Some ==> exists|k: int|
                        0 <= k < out@.len() && header_views(out@)[k].0 == n,
            decreases secrets@.len() - i,
        {
            let name = secrets[i].0.clone();
            let value = secrets[i].1.clone();
            let ghost e = input[i as int];
            assert(e == (name@, value@));
            assert(input.take(i + 1).drop_last() =~= input.take(i as int));
            assert(input.take(i + 1).last() == e);
            let mut p: usize = 0;
            let mut found = false;
            while p < out.len()
                invariant_except_break
                    !found,
                invariant
                    p <= out@.len(),
                    forall|k: int| 0 <= k < p ==> #[trigger] header_views(out@)[k].0 != name@,
                ensures
                    found ==> p < out@.len() && header_views(out@)[p as int].0 == name@,
                    !found ==> forall|k: int|
                        0 <= k < out@.len() ==> #[trigger] header_views(out@)[k].0 != name@,
                decreases out@.len() - p,
            {
                if out[p].0 == name {
                    found = true;
                    break;
                }
                p = p + 1;
            }
            let ghost before = header_views(out@);
            if found {
                out.set(p, (name, value));
                assert(header_views(out@) =~= before.update(p as int, e));
            } else {
                out.push((name, value));
                assert(header_views(out@) =~= before.push(e));
            }
            let ghost after = header_views(out@);
            assert forall|a: int, b: int| #![trigger after[a], after[b]] 0 <= a < b < after.len() implies after[a].0
                != after[b].0 by {
                if found {
                    assert(after[a].0 == before[a].0 && after[b].0 == before[b].0);
                    assert(before[a].0 != before[b].0);
                } else if b < before.len() {
                    assert(before[a].0 != before[b].0);
                } else {
                    assert(before[a].0 != e.0);
                }
            }
            assert forall|k: int|
                0 <= k < out@.len() implies last_value(input.take(i + 1), #[trigger] after[k].0) == Some(
                after[k].1,
            ) by {
                if after[k].0 != e.0 {
                    assert(after[k] == before[k]);
                    assert(last_value(input.take(i as int), before[k].0) == Some(before[k].1));
                } else if found {
                    if k != p {
                        assert(before[k].0 != before[p as int].0);
                    }
                } else {
                    if k < before.len() {
                        assert(before[k].0 != e.0);
                    }
                }
            }
            assert forall|n: Seq<char>| #[trigger] last_value(input.take(i + 1), n) is Some implies exists|k: int|
                0 <= k < out@.len() && after[k].0 == n by {
                if n == e.0 {
                    if found {
                        assert(after[p as int].0 == n);
                    } else {
                        assert(after[before.len() as int].0 == n);
                    }
                } else {
                    assert(last_value(input.take(i as int), n) is Some);
                    let k = choose|k: int| 0 <= k < before.len() && before[k].0 == n;
                    assert(after[k].0 == n);
                }
            }
            i = i + 1;
        }
        assert(input.take(secrets@.len() as int) =~= input);
        DopplerSource { secrets: out }
    }

    /// The secrets as (name, value) pairs.
    pub closed spec fn secrets(&self) -> Seq<(Seq<char>, Seq<char>)> {
        header_views(self.secrets@)
    }

    /// Each secret under its configuration path, in the order held.
    pub fn collect(&self) -> (r: Vec<(String, String)>)
        ensures
            header_views(r@) == self.secrets().map_values(
                |p: (Seq<char>, Seq<char>)| (config_path(p.0), p.1),
            ),
    {
        let mut r: Vec<(String, String)> = Vec::new();
        let mut i: usize = 0;
        while i < self.secrets.len()
            invariant
                i <= self.secrets@.len(),
                header_views(r@) =~= self.secrets().take(i as int).map_values(
                    |p: (Seq<char>, Seq<char>)| (config_path(p.0), p.1),
                ),
            decreases self.secrets@.len() - i,
        {
            let path = secret_path(self.secrets[i].0.as_str());
            let value = self.secrets[i].1.clone();
            let ghost before = header_views(r@);
            let ghost entry = self.secrets()[i as int];
            assert(entry == (self.secrets@[i as int].0@, self.secrets@[i as int].1@));
            r.push((path, value));
            assert(header_views(r@) =~= before.push((config_path(entry.0), entry.1)));
            assert(self.secrets().take(i + 1) =~= self.secrets().take(i as int).push(entry));
            i = i + 1;
        }
        assert(self.secrets().take(self.secrets@.len() as int) =~= self.secrets());
        r
    }
}

/// Whether the secrets source is switched on: the flag is present and reads
/// `true` in any letter case.
pub fn secrets_enabled(flag: Option<&str>) -> (r: bool)
    ensures
        r == (flag matches Some(f) && eq_ignore_ascii_case(f@, "true"@)),
{
    match flag {
        Some(f) => {
            let a = chars_of(f);
            let b = chars_of("true");
            eq_ignore_ascii_case_chars(a.as_slice(), b.as_slice())
        },
        None => false,
    }
}

/// Whether a byte of a form value is sent as it is.
pub open spec fn url_unchanged(c: char) -> bool {
    ||| ('0' <= c && c <= '9')
    ||| ('A' <= c && c <= 'Z')
    ||| ('a' <= c && c <= 'z')
    ||| c == '*'
    ||| c == '-'
    ||| c == '.'
    ||| c == '_'
}

/// The upper-case hexadecimal digit of a value below 16.
pub open spec fn hex_upper(d: nat) -> char {
    if d < 10 {
        ((d + 48) as u32) as char
    } else {
        ((d + 55) as u32) as char
    }
}

/// The form encoding of one ASCII character.
pub open spec fn form_encode_ascii(c: char) -> Seq<char> {
    if url_unchanged(c) {
        seq![c]
    } else if c == ' ' {
        seq!['+']
    } else {
        seq!['%', hex_upper((c as u32 / 16) as nat), hex_upper((c as u32 % 16) as nat)]
    }
}

/// What `form_urlencoded::byte_serialize` yields for the UTF-8 bytes of a
/// string, joined.
pub uninterp spec fn form_urlencoded(s: Seq<char>) -> Seq<char>;

/// Calls `form_urlencoded::byte_serialize` on the UTF-8 bytes of `s` and
/// joins the pieces. The result is named `form_urlencoded`; for an ASCII
/// string the contract states the encoding character by character (letters,
/// digits and `*-._` unchanged, a space as `+`, any other character as `%`
/// and two upper-case hex digits). Non-ASCII input, which is encoded byte by
/// byte of its UTF-8 form, is not described further.
#[verifier::external_body]
fn form_encode(s: &str) -> (r: String)
    ensures
        r@ == form_urlencoded(s@),
        crate::text::all_ascii(s@) ==> r@ == s@.flat_map(|c: char| form_encode_ascii(c)),
{
    url::form_urlencoded::byte_serialize(s.as_bytes()).collect()
}

/// The Doppler endpoint that lists every secret of a project's config.
pub open spec fn secrets_url(project: Seq<char>, config: Seq<char>) -> Seq<char> {
    "https://api.doppler.com/v3/configs/config/secrets?"@ + "project="@ + form_urlencoded(project)
        + "&config="@ + form_urlencoded(config)
}

/// A request for the secrets of one Doppler config.
pub struct DopplerRequest {
    pub url: String,
    pub authorization: String,
}

/// The request for the secrets of `project`/`config`, authorised by the
/// service token as a bearer token.
pub fn secrets_request(token: &str, project: &str, config: &str) -> (r: DopplerRequest)
    ensures
        r.url@ == secrets_url(project@, config@),
        r.authorization@ == "Bearer "@ + token@,
{
    let mut url = "https://api.doppler.com/v3/configs/config/secrets?".to_owned();
    url.append("project=");
    let p = form_encode(project);
    url.append(p.as_str());
    url.append("&config=");
    let c = form_encode(config);
    url.append(c.as_str());
    let mut authorization = "Bearer ".to_owned();
    authorization.append(token);
    DopplerRequest { url, authorization }
}

/// Whether the secrets are fetched, from the switch and the three settings it
/// needs. Off unless switched on; then the service token, the project and the
/// config must all be present, and the first one missing is the error.
pub fn plan_fetch<E>(
    enabled: bool,
    token: Result<String, E>,
    project: Result<String, E>,
    config: Result<String, E>,
) -> (r: Result<Option<DopplerRequest>, E>)
    ensures
        !enabled ==> r matches Ok(None),
        enabled && token is Err ==> r == Err::<Option<DopplerRequest>, E>(token->Err_0),
        enabled && token is Ok && project is Err ==> r == Err::<Option<DopplerRequest>, E>(
            project->Err_0,
        ),
        enabled && token is Ok && project is Ok && config is Err ==> r == Err::<
            Option<DopplerRequest>,
            E,
        >(config->Err_0),
        enabled && token is Ok && project is Ok && config is Ok ==> (r matches Ok(Some(q)) && q.url@
            == secrets_url(project->Ok_0@, config->Ok_0@) && q.authorization@ == "Bearer "@
            + token->Ok_0@),
{
    if !enabled {
        return Ok(None);
    }
    let token = match token {
        Ok(t) => t,
        Err(e) => {
            return Err(e);
        },
    };
    let project = match project {
        Ok(p) => p,
        Err(e) => {
            return Err(e);
        },
    };
    let config = match config {
        Ok(c) => c,
        Err(e) => {
            return Err(e);
        },
    };
    Ok(Some(secrets_request(token.as_str(), project.as_str(), config.as_str())))
}

/// Whether a Doppler answer is usable: its HTTP status is a success, in
/// `200..300`; otherwise the status is the error.
pub fn check_status(status: u16) -> (r: Result<(), u16>)
    ensures
        r is Ok <==> 200 <= status < 300,
        r is Err ==> r == Err::<(), u16>(status),
{
    if 200 <= status && status < 300 {
        Ok(())
    } else {
        Err(status)
    }
}

} // verus!
