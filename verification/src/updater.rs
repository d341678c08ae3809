use vstd::prelude::*;
use crate::text::{
    chars_of, contains, contains_seq, find, first_occ, is_first_occ, lemma_first_occ_is, occurs_at, parse_u64,
    parse_unsigned, push_all, replace_first, replace_first_part, rsplit_last, rsplit_last_part,
    slice_chars, split_first, split_first_part, string_of, trim, trim_spec, ends_with,
    ends_with_seq,
};

verus! {

/// Name prefix of the official release assets (`<prefix>-<version>-<arch>.<ext>`).
pub const OFFICIAL_RELEASE_ASSET_PREFIX: &'static str = "hdesk";

/// Why an update could not be resolved or fetched.
#[derive(Debug, PartialEq, Eq, Structural)]
pub enum UpdateError {
    /// No version can be read off the update URL.
    UnsupportedUpdateUrl,
    /// A release page URL without `/releases/tag/`.
    UnsupportedReleasePage,
    /// This platform has no release asset.
    UnsupportedPlatform,
    /// The download URL names no file.
    NoFileName,
    /// The server answered the size probe with a failure status.
    SizeRequestFailed,
    /// The server did not say how large the file is.
    NoContentLength,
}

/// The release asset flavour that this build installs from.
#[derive(Clone, Copy, Debug, PartialEq, Eq, Structural)]
pub enum ReleaseTarget {
    /// Windows, Flutter UI; `prefer_msi` picks the MSI package over the exe.
    WindowsFlutter { prefer_msi: bool },
    /// Windows, Sciter UI.
    WindowsSciter,
    MacX86_64,
    MacAarch64,
    /// Any other OS or architecture.
    Unsupported,
}

pub open spec fn asset_prefix() -> Seq<char> {
    OFFICIAL_RELEASE_ASSET_PREFIX@
}

pub open spec fn release_tag_marker() -> Seq<char> {
    "/releases/tag/"@
}

pub open spec fn release_download_marker() -> Seq<char> {
    "/releases/download/"@
}

/// The version between the asset prefix and the first architecture marker
/// of `rest`, the markers tried in a fixed order.
pub open spec fn version_before_marker(rest: Seq<char>) -> Option<Seq<char>> {
    if contains_seq(rest, "-x86_64."@) {
        Some(rest.take(first_occ(rest, "-x86_64."@)))
    } else if contains_seq(rest, "-x86-sciter."@) {
        Some(rest.take(first_occ(rest, "-x86-sciter."@)))
    } else if contains_seq(rest, "-aarch64."@) {
        Some(rest.take(first_occ(rest, "-aarch64."@)))
    } else {
        None
    }
}

/// The last `/`-separated segment of the URL without its query, if any.
pub open spec fn last_url_segment(u: Seq<char>) -> Option<Seq<char>> {
    let seg = rsplit_last(split_first(u, seq!['?']), seq!['/']);
    if seg.len() == 0 {
        None
    } else {
        Some(seg)
    }
}

/// The version named by an update URL: the part of an official asset name
/// between `<prefix>-` and its architecture marker, else the URL's last
/// path segment.
pub open spec fn version_from_update_url(u: Seq<char>) -> Option<Seq<char>> {
    let p = asset_prefix().push('-');
    if contains_seq(u, p) {
        match version_before_marker(u.skip(first_occ(u, p) + p.len())) {
            Some(v) => Some(v),
            None => last_url_segment(u),
        }
    } else {
        last_url_segment(u)
    }
}

/// The file name of the release asset for `version` on `target`.
pub open spec fn asset_filename(version: Seq<char>, target: ReleaseTarget) -> Option<Seq<char>> {
    let base = asset_prefix().push('-') + version;
    match target {
        ReleaseTarget::WindowsFlutter { prefer_msi } => Some(
            base + "-x86_64."@ + (if prefer_msi {
                "msi"@
            } else {
                "exe"@
            }),
        ),
        ReleaseTarget::WindowsSciter => Some(base + "-x86-sciter.exe"@),
        ReleaseTarget::MacX86_64 => Some(base + "-x86_64.dmg"@),
        ReleaseTarget::MacAarch64 => Some(base + "-aarch64.dmg"@),
        ReleaseTarget::Unsupported => None,
    }
}

/// The version and download URL that an update URL resolves to.
pub open spec fn resolved_download(u: Seq<char>, target: ReleaseTarget) -> Result<
    (Seq<char>, Seq<char>),
    UpdateError,
> {
    match version_from_update_url(u) {
        None => Err(UpdateError::UnsupportedUpdateUrl),
        Some(v) => if contains_seq(u, release_tag_marker()) {
            match asset_filename(v, target) {
                None => Err(UpdateError::UnsupportedPlatform),
                Some(f) => Ok(
                    (
                        v,
                        replace_first(u, release_tag_marker(), release_download_marker()).push('/')
                            + f,
                    ),
                ),
            }
        } else {
            Ok((v, u))
        },
    }
}

/// Whether the update URL points at a release page rather than at a file.
pub fn is_release_page_url(update_url: &str) -> (b: bool)
    ensures
        b == contains_seq(update_url@, release_tag_marker()),
{
    let u = chars_of(update_url);
    let marker = chars_of("/releases/tag/");
    contains(&u, &marker)
}

fn version_before_marker_exec(rest: &[char]) -> (r: Option<Vec<char>>)
    ensures
        match r {
            Some(v) => version_before_marker(rest@) == Some(v@),
            None => version_before_marker(rest@) is None,
        },
{
    let m1 = chars_of("-x86_64.");
    if let Some(end) = find(rest, &m1) {
        proof {
            lemma_first_occ_is(rest@, m1@, end as int);
        }
        return Some(slice_chars(rest, 0, end));
    }
    let m2 = chars_of("-x86-sciter.");
    if let Some(end) = find(rest, &m2) {
        proof {
            lemma_first_occ_is(rest@, m2@, end as int);
        }
        return Some(slice_chars(rest, 0, end));
    }
    let m3 = chars_of("-aarch64.");
    if let Some(end) = find(rest, &m3) {
        proof {
            lemma_first_occ_is(rest@, m3@, end as int);
        }
        return Some(slice_chars(rest, 0, end));
    }
    None
}

fn last_url_segment_exec(u: &[char]) -> (r: Option<Vec<char>>)
    ensures
        match r {
            Some(v) => last_url_segment(u@) == Some(v@),
            None => last_url_segment(u@) is None,
        },
{
    let q = vec!['?'];
    let slash = vec!['/'];
    let before_query = split_first_part(u, &q);
    let seg = rsplit_last_part(&before_query, &slash);
    assert(q@ == seq!['?']);
    assert(slash@ == seq!['/']);
    if seg.len() == 0 {
        None
    } else {
        Some(seg)
    }
}

/// The version named by an update URL (see `version_from_update_url`).
pub fn get_version_from_update_url(update_url: &str) -> (r: Option<String>)
    ensures
        match r {
            Some(v) => version_from_update_url(update_url@) == Some(v@),
            None => version_from_update_url(update_url@) is None,
        },
{
    let u = chars_of(update_url);
    let mut prefix = chars_of(OFFICIAL_RELEASE_ASSET_PREFIX);
    prefix.push('-');
    if let Some(start) = find(&u, &prefix) {
        proof {
            lemma_first_occ_is(u@, prefix@, start as int);
            assert(occurs_at(u@, prefix@, start as int));
        }
        let total = u.len();
        let n = prefix.len();
        assert(start + n <= total);
        let rest = slice_chars(&u, start + n, total);
        assert(rest@ == u@.skip(start + n));
        if let Some(v) = version_before_marker_exec(&rest) {
            return Some(string_of(&v));
        }
    }
    match last_url_segment_exec(&u) {
        Some(seg) => Some(string_of(&seg)),
        None => None,
    }
}

/// The download root of a release page: its first `/releases/tag/`
/// replaced by `/releases/download/`.
pub fn get_release_download_root(release_page_url: &str) -> (r: Result<String, UpdateError>)
    ensures
        match r {
            Ok(root) => contains_seq(release_page_url@, release_tag_marker()) && root@
                == replace_first(
                release_page_url@,
                release_tag_marker(),
                release_download_marker(),
            ),
            Err(e) => !contains_seq(release_page_url@, release_tag_marker()) && e
                == UpdateError::UnsupportedReleasePage,
        },
{
    let u = chars_of(release_page_url);
    let tag = chars_of("/releases/tag/");
    let download = chars_of("/releases/download/");
    if !contains(&u, &tag) {
        return Err(UpdateError::UnsupportedReleasePage);
    }
    let root = replace_first_part(&u, &tag, &download);
    Ok(string_of(&root))
}

fn asset_filename_chars(version: &[char], target: ReleaseTarget) -> (r: Option<Vec<char>>)
    ensures
        match r {
            Some(f) => asset_filename(version@, target) == Some(f@),
            None => asset_filename(version@, target) is None,
        },
{
    let mut name = chars_of(OFFICIAL_RELEASE_ASSET_PREFIX);
    name.push('-');
    push_all(&mut name, version);
    let suffix = match target {
        ReleaseTarget::WindowsFlutter { prefer_msi } => {
            let mut s = chars_of("-x86_64.");
            let ext = if prefer_msi {
                chars_of("msi")
            } else {
                chars_of("exe")
            };
            push_all(&mut s, &ext);
            s
        },
        ReleaseTarget::WindowsSciter => chars_of("-x86-sciter.exe"),
        ReleaseTarget::MacX86_64 => chars_of("-x86_64.dmg"),
        ReleaseTarget::MacAarch64 => chars_of("-aarch64.dmg"),
        ReleaseTarget::Unsupported => {
            return None;
        },
    };
    push_all(&mut name, &suffix);
    Some(name)
}

/// The file name of the release asset for `version` on `target`, or
/// `UnsupportedPlatform` where the target has none.
pub fn get_release_asset_filename(version: &str, target: ReleaseTarget) -> (r: Result<
    String,
    UpdateError,
>)
    ensures
        match r {
            Ok(f) => asset_filename(version@, target) == Some(f@),
            Err(e) => asset_filename(version@, target) is None && e
                == UpdateError::UnsupportedPlatform,
        },
{
    let v = chars_of(version);
    match asset_filename_chars(&v, target) {
        Some(f) => Ok(string_of(&f)),
        None => Err(UpdateError::UnsupportedPlatform),
    }
}

/// The version and the download URL of an update URL: a release page is
/// turned into the URL of this target's asset under its download root; any
/// other URL is downloaded as it is.
pub fn resolve_download_url(update_url: &str, target: ReleaseTarget) -> (r: Result<
    (String, String),
    UpdateError,
>)
    ensures
        match r {
            Ok((v, d)) => resolved_download(update_url@, target) == Ok::<
                (Seq<char>, Seq<char>),
                UpdateError,
            >((v@, d@)),
            Err(e) => resolved_download(update_url@, target) == Err::<
                (Seq<char>, Seq<char>),
                UpdateError,
            >(e),
        },
{
    let version = match get_version_from_update_url(update_url) {
        Some(v) => v,
        None => {
            return Err(UpdateError::UnsupportedUpdateUrl);
        },
    };
    if is_release_page_url(update_url) {
        let root = match get_release_download_root(update_url) {
            Ok(root) => root,
            Err(e) => {
                return Err(e);
            },
        };
        let file = match get_release_asset_filename(version.as_str(), target) {
            Ok(f) => f,
            Err(e) => {
                return Err(e);
            },
        };
        let mut url = chars_of(root.as_str());
        url.push('/');
        let file_chars = chars_of(file.as_str());
        push_all(&mut url, &file_chars);
        Ok((version, string_of(&url)))
    } else {
        Ok((version, update_url.to_owned()))
    }
}


/// The path that `url::Url::parse` gives `input` (`Url::path`), `None` where
/// the parser refuses `input`.
pub uninterp spec fn parsed_url_path(input: Seq<char>) -> Option<Seq<char>>;

/// Calls `url::Url::parse` on `input` and hands back `Url::path` of the
/// result, `None` where parsing fails. The contract only ties the result to
/// `parsed_url_path`; what the parser does to a path (percent-encoding, dot
/// segments, default paths) is not stated.
#[verifier::external_body]
fn url_path(input: &str) -> (r: Option<String>)
    ensures
        match r {
            Some(p) => parsed_url_path(input@) == Some(p@),
            None => parsed_url_path(input@) is None,
        },
{
    url::Url::parse(input).ok().map(|parsed| parsed.path().to_owned())
}

/// The last path segment of a URL: from a parsed path (`Url::path_segments`
/// yields the segments after the leading `/`, and nothing for a path without
/// one), else from the raw text split on `/`.
pub open spec fn url_tail(url: Seq<char>, parsed_path: Option<Seq<char>>) -> Option<Seq<char>> {
    match parsed_path {
        Some(path) => if path.len() > 0 && path[0] == '/' {
            Some(rsplit_last(path.drop_first(), seq!['/']))
        } else {
            None
        },
        None => Some(rsplit_last(url, seq!['/'])),
    }
}

/// A path segment with anything up to an encoded `/` (`%2F` or `%2f`) and
/// any query removed.
pub open spec fn clean_file_name(tail: Seq<char>) -> Seq<char> {
    split_first(rsplit_last(rsplit_last(tail, "%2F"@), "%2f"@), seq!['?'])
}

/// The name of the file that a download URL saves to, if it names one.
pub open spec fn download_file_name(url: Seq<char>, parsed_path: Option<Seq<char>>) -> Option<
    Seq<char>,
> {
    match url_tail(url, parsed_path) {
        None => None,
        Some(t) => if clean_file_name(t).len() == 0 {
            None
        } else {
            Some(clean_file_name(t))
        },
    }
}

/// The file name for `url`, given what the URL parser made of it
/// (`parsed_path`: the parsed path, `None` where parsing failed).
pub fn download_file_name_from_parsed(url: &str, parsed_path: Option<&str>) -> (r: Option<String>)
    ensures
        match r {
            Some(f) => download_file_name(
                url@,
                match parsed_path {
                    Some(p) => Some(p@),
                    None => None,
                },
            ) == Some(f@),
            None => download_file_name(
                url@,
                match parsed_path {
                    Some(p) => Some(p@),
                    None => None,
                },
            ) is None,
        },
{
    let slash = vec!['/'];
    assert(slash@ == seq!['/']);
    let tail = match parsed_path {
        Some(p) => {
            let path = chars_of(p);
            if path.len() > 0 && path[0] == '/' {
                let rest = slice_chars(&path, 1, path.len());
                assert(rest@ == path@.drop_first());
                rsplit_last_part(&rest, &slash)
            } else {
                return None;
            }
        },
        None => {
            let u = chars_of(url);
            rsplit_last_part(&u, &slash)
        },
    };
    let upper = chars_of("%2F");
    let lower = chars_of("%2f");
    let q = vec!['?'];
    assert(q@ == seq!['?']);
    let a = rsplit_last_part(&tail, &upper);
    let b = rsplit_last_part(&a, &lower);
    let name = split_first_part(&b, &q);
    if name.len() == 0 {
        None
    } else {
        Some(string_of(&name))
    }
}

/// The name of the file that `url` is downloaded to (the caller places it
/// in the temporary directory).
pub fn get_download_file_from_url(url: &str) -> (r: Option<String>)
    ensures
        match r {
            Some(f) => download_file_name(url@, parsed_url_path(url@)) == Some(f@),
            None => download_file_name(url@, parsed_url_path(url@)) is None,
        },
{
    match url_path(url) {
        Some(path) => download_file_name_from_parsed(url, Some(path.as_str())),
        None => download_file_name_from_parsed(url, None),
    }
}

/// The total size that response headers announce: the number after the last
/// `/` of `Content-Range` (trimmed), else `Content-Length`.
pub open spec fn size_from_headers(content_range: Option<Seq<char>>, content_length: Option<Seq<char>>) -> Option<int> {
    let from_range = match content_range {
        Some(c) => parse_unsigned(trim_spec(rsplit_last(c, seq!['/'])), u64::MAX as int),
        None => None,
    };
    match from_range {
        Some(v) => Some(v),
        None => match content_length {
            Some(l) => parse_unsigned(l, u64::MAX as int),
            None => None,
        },
    }
}

/// The file size that a response announces, from the text of its
/// `Content-Range` and `Content-Length` headers (`None` for a header that is
/// missing or not visible ASCII).
pub fn parse_total_size_from_headers(content_range: Option<&str>, content_length: Option<&str>) -> (r: Option<u64>)
    ensures
        match r {
            Some(v) => size_from_headers(
                match content_range {
                    Some(c) => Some(c@),
                    None => None,
                },
                match content_length {
                    Some(c) => Some(c@),
                    None => None,
                },
            ) == Some(v as int),
            None => size_from_headers(
                match content_range {
                    Some(c) => Some(c@),
                    None => None,
                },
                match content_length {
                    Some(c) => Some(c@),
                    None => None,
                },
            ) is None,
        },
{
    if let Some(c) = content_range {
        let slash = vec!['/'];
        assert(slash@ == seq!['/']);
        let text = chars_of(c);
        let total = rsplit_last_part(&text, &slash);
        let trimmed = trim(&total);
        if let Some(v) = parse_u64(&trimmed) {
            return Some(v);
        }
    }
    match content_length {
        Some(l) => {
            let text = chars_of(l);
            parse_u64(&text)
        },
        None => None,
    }
}

/// The size that a successful `HEAD` reply gives, if any; where it gives
/// none, the size is asked again with a ranged `GET`.
pub fn size_from_head_reply(success: bool, total_size: Option<u64>) -> (r: Option<u64>)
    ensures
        r == (if success {
            total_size
        } else {
            None
        }),
{
    if success {
        total_size
    } else {
        None
    }
}

/// The size that the reply to the ranged `GET` gives, or why there is none.
pub fn size_from_ranged_get_reply(success: bool, total_size: Option<u64>) -> (r: Result<u64, UpdateError>)
    ensures
        !success ==> r == Err::<u64, UpdateError>(UpdateError::SizeRequestFailed),
        success ==> r == match total_size {
            Some(n) => Ok::<u64, UpdateError>(n),
            None => Err(UpdateError::NoContentLength),
        },
{
    if !success {
        return Err(UpdateError::SizeRequestFailed);
    }
    match total_size {
        Some(n) => Ok(n),
        None => Err(UpdateError::NoContentLength),
    }
}


/// Whether a check may run: a manual check always may, an automatic one
/// only where the user allows automatic updates.
pub fn update_check_allowed(manually: bool, allow_auto_update: bool) -> (b: bool)
    ensures
        b == (manually || allow_auto_update),
{
    manually || allow_auto_update
}

/// What a found update resolves to: its version, the URL to download and
/// the name of the file to save it as.
#[derive(Debug)]
pub struct UpdatePlan {
    pub version: String,
    pub download_url: String,
    pub file_name: String,
}

/// Resolves an update URL into what to download and where to save it.
pub fn plan_update_download(update_url: &str, target: ReleaseTarget) -> (r: Result<
    UpdatePlan,
    UpdateError,
>)
    ensures
        match r {
            Ok(plan) => resolved_download(update_url@, target) == Ok::<
                (Seq<char>, Seq<char>),
                UpdateError,
            >((plan.version@, plan.download_url@)) && download_file_name(
                plan.download_url@,
                parsed_url_path(plan.download_url@),
            ) == Some(plan.file_name@),
            Err(e) => match resolved_download(update_url@, target) {
                Err(e2) => e == e2,
                Ok((v, d)) => e == UpdateError::NoFileName && download_file_name(
                    d,
                    parsed_url_path(d),
                ) is None,
            },
        },
{
    let (version, download_url) = match resolve_download_url(update_url, target) {
        Ok(pair) => pair,
        Err(e) => {
            return Err(e);
        },
    };
    match get_download_file_from_url(download_url.as_str()) {
        Some(file_name) => Ok(UpdatePlan { version, download_url, file_name }),
        None => Err(UpdateError::NoFileName),
    }
}

/// Whether the MSI package is the one to update with: never for a custom
/// client, otherwise where an MSI installation was detected (`None`: the
/// detection failed, which falls back to the exe).
pub fn prefer_msi_installer(is_custom_client: bool, msi_installed: Option<bool>) -> (b: bool)
    ensures
        b == (!is_custom_client && msi_installed == Some(true)),
{
    if is_custom_client {
        return false;
    }
    match msi_installed {
        Some(installed) => installed,
        None => false,
    }
}

/// A message to the update loop.
#[derive(Clone, Copy, Debug, PartialEq, Eq, Structural)]
pub enum UpdateMsg {
    CheckUpdate,
    Exit,
}

/// Delay before the first check after start, in milliseconds.
pub const FIRST_CHECK_DELAY_MS: u64 = 30_000;

/// No two checks closer than ten minutes.
pub const MIN_INTERVAL_MS: u64 = 600_000;

/// Wait after a failed or deferred check: thirty minutes.
pub const RETRY_INTERVAL_MS: u64 = 1_800_000;

/// Wait after a successful check: one day.
pub const ONE_DAY_MS: u64 = 86_400_000;

/// What ended the update loop's wait.
#[derive(Clone, Copy, Debug, PartialEq, Eq, Structural)]
pub enum UpdateLoopEvent {
    Message(UpdateMsg),
    /// No message within the wait (or the channel is gone).
    TimedOut,
}

/// What the update loop does next.
#[derive(Clone, Copy, Debug, PartialEq, Eq, Structural)]
pub enum UpdateLoopAction {
    /// Wait again, for `check_interval_ms`.
    Wait,
    /// Run a check now, then report its outcome with `on_check_finished`.
    Check { manually: bool },
    /// Leave the loop.
    Stop,
}

/// The background update loop: when it last checked successfully and
/// how long it waits for the next message. Times are milliseconds of a
/// monotonic clock.
#[derive(Clone, Copy, Debug, PartialEq, Eq, Structural)]
pub struct AutoUpdateLoop {
    pub last_check_ms: u64,
    pub check_interval_ms: u64,
}

/// Time since the last successful check; a clock that went back reads 0.
pub open spec fn since_last_check(c: AutoUpdateLoop, now_ms: u64) -> int {
    if now_ms >= c.last_check_ms {
        now_ms - c.last_check_ms
    } else {
        0
    }
}

/// One step of the update loop on an event, given whether no connection is
/// alive at that moment.
pub open spec fn update_loop_step(
    c: AutoUpdateLoop,
    event: UpdateLoopEvent,
    now_ms: u64,
    no_active_conns: bool,
) -> (AutoUpdateLoop, UpdateLoopAction) {
    match event {
        UpdateLoopEvent::Message(UpdateMsg::Exit) => (c, UpdateLoopAction::Stop),
        _ => if since_last_check(c, now_ms) < MIN_INTERVAL_MS {
            (c, UpdateLoopAction::Wait)
        } else if !no_active_conns {
            (AutoUpdateLoop { check_interval_ms: RETRY_INTERVAL_MS, ..c }, UpdateLoopAction::Wait)
        } else {
            (c, UpdateLoopAction::Check { manually: event == UpdateLoopEvent::Message(UpdateMsg::CheckUpdate) })
        },
    }
}

/// The update loop after a check that ran at `now_ms`.
pub open spec fn update_loop_after_check(c: AutoUpdateLoop, succeeded: bool, now_ms: u64) -> AutoUpdateLoop {
    if succeeded {
        AutoUpdateLoop { last_check_ms: now_ms, check_interval_ms: ONE_DAY_MS }
    } else {
        AutoUpdateLoop { check_interval_ms: RETRY_INTERVAL_MS, ..c }
    }
}

impl AutoUpdateLoop {
    /// The update loop after its first check (run `FIRST_CHECK_DELAY_MS` after
    /// start, whatever its outcome): it counts from `now_ms` and waits a day.
    pub fn new(now_ms: u64) -> (c: AutoUpdateLoop)
        ensures
            c.last_check_ms == now_ms,
            c.check_interval_ms == ONE_DAY_MS,
    {
        AutoUpdateLoop { last_check_ms: now_ms, check_interval_ms: ONE_DAY_MS }
    }

    /// Decides what to do on `event`: stop on `Exit`; otherwise skip a
    /// check within `MIN_INTERVAL_MS` of the last one, defer it by
    /// `RETRY_INTERVAL_MS` while a connection is alive, else run it.
    pub fn on_event(&mut self, event: UpdateLoopEvent, now_ms: u64, no_active_conns: bool) -> (a: UpdateLoopAction)
        ensures
            (*final(self), a) == update_loop_step(*old(self), event, now_ms, no_active_conns),
    {
        match event {
            UpdateLoopEvent::Message(UpdateMsg::Exit) => UpdateLoopAction::Stop,
            _ => {
                let since = if now_ms >= self.last_check_ms {
                    now_ms - self.last_check_ms
                } else {
                    0
                };
                if since < MIN_INTERVAL_MS {
                    UpdateLoopAction::Wait
                } else if !no_active_conns {
                    self.check_interval_ms = RETRY_INTERVAL_MS;
                    UpdateLoopAction::Wait
                } else {
                    let manually = match event {
                        UpdateLoopEvent::Message(UpdateMsg::CheckUpdate) => true,
                        _ => false,
                    };
                    UpdateLoopAction::Check { manually }
                }
            },
        }
    }

    /// Records the outcome of a check that ran at `now_ms`: a success
    /// restarts the clock and waits a day, a failure retries sooner.
    pub fn on_check_finished(&mut self, succeeded: bool, now_ms: u64)
        ensures
            *final(self) == update_loop_after_check(*old(self), succeeded, now_ms),
    {
        if succeeded {
            self.last_check_ms = now_ms;
            self.check_interval_ms = ONE_DAY_MS;
        } else {
            self.check_interval_ms = RETRY_INTERVAL_MS;
        }
    }
}

/// Exit always ends the update loop and changes nothing.
pub proof fn law_exit_stops(c: AutoUpdateLoop, now_ms: u64, no_active_conns: bool)
    ensures
        update_loop_step(c, UpdateLoopEvent::Message(UpdateMsg::Exit), now_ms, no_active_conns) == (
            c,
            UpdateLoopAction::Stop,
        ),
{
}

/// After a successful check at `t`, no event starts another check before
/// `t + MIN_INTERVAL_MS`, and the update loop waits a day unless asked.
pub proof fn law_quiet_after_success(
    c: AutoUpdateLoop,
    t: u64,
    event: UpdateLoopEvent,
    now_ms: u64,
    no_active_conns: bool,
)
    requires
        now_ms < t + MIN_INTERVAL_MS,
    ensures
        update_loop_after_check(c, true, t).check_interval_ms == ONE_DAY_MS,
        !(update_loop_step(update_loop_after_check(c, true, t), event, now_ms, no_active_conns).1 is Check),
{
}

/// A check runs only when no connection is alive; while one is, a due
/// check is put off by the retry interval.
pub proof fn law_checks_only_when_idle(
    c: AutoUpdateLoop,
    event: UpdateLoopEvent,
    now_ms: u64,
    no_active_conns: bool,
)
    ensures
        update_loop_step(c, event, now_ms, no_active_conns).1 is Check ==> no_active_conns
            && since_last_check(c, now_ms) >= MIN_INTERVAL_MS,
        !no_active_conns && event != UpdateLoopEvent::Message(UpdateMsg::Exit)
            && since_last_check(c, now_ms) >= MIN_INTERVAL_MS ==> update_loop_step(
            c,
            event,
            now_ms,
            no_active_conns,
        ).0.check_interval_ms == RETRY_INTERVAL_MS,
{
}

/// The updater's shared state: whether the update loop thread runs, and how many
/// sessions this client controls.
#[derive(Clone, Copy, Debug, PartialEq, Eq, Structural)]
pub struct UpdaterControl {
    pub update_thread_started: bool,
    pub controlling_sessions: usize,
}

/// What the caller does for a request to the update loop: start its thread
/// first where `spawn_update_thread`, then send `message`, if any.
#[derive(Clone, Copy, Debug, PartialEq, Eq, Structural)]
pub struct ChannelCommand {
    pub spawn_update_thread: bool,
    pub message: Option<UpdateMsg>,
}

/// Any use of the update loop's channel starts the update loop the first time.
pub open spec fn channel_request(c: UpdaterControl, message: Option<UpdateMsg>) -> (
    UpdaterControl,
    ChannelCommand,
) {
    (
        UpdaterControl { update_thread_started: true, ..c },
        ChannelCommand { spawn_update_thread: !c.update_thread_started, message },
    )
}

impl UpdaterControl {
    pub fn new() -> (c: UpdaterControl)
        ensures
            !c.update_thread_started,
            c.controlling_sessions == 0,
    {
        UpdaterControl { update_thread_started: false, controlling_sessions: 0 }
    }
}

fn request_channel(control: &mut UpdaterControl, message: Option<UpdateMsg>) -> (cmd: ChannelCommand)
    ensures
        (*final(control), cmd) == channel_request(*old(control), message),
{
    let spawn_update_thread = !control.update_thread_started;
    control.update_thread_started = true;
    ChannelCommand { spawn_update_thread, message }
}

/// Records how many sessions this client now controls.
pub fn update_controlling_session_count(control: &mut UpdaterControl, count: usize)
    ensures
        *final(control) == (UpdaterControl { controlling_sessions: count, ..*old(control) }),
{
    control.controlling_sessions = count;
}

/// Starts the update loop if it is not running yet.
pub fn start_auto_update(control: &mut UpdaterControl) -> (cmd: ChannelCommand)
    ensures
        (*final(control), cmd) == channel_request(*old(control), None),
{
    request_channel(control, None)
}

/// Asks the update loop for a check now.
pub fn manually_check_update(control: &mut UpdaterControl) -> (cmd: ChannelCommand)
    ensures
        (*final(control), cmd) == channel_request(*old(control), Some(UpdateMsg::CheckUpdate)),
{
    request_channel(control, Some(UpdateMsg::CheckUpdate))
}

/// Tells the update loop to stop (starting it first if it never ran, as any use
/// of its channel does).
pub fn stop_auto_update(control: &mut UpdaterControl) -> (cmd: ChannelCommand)
    ensures
        (*final(control), cmd) == channel_request(*old(control), Some(UpdateMsg::Exit)),
{
    request_channel(control, Some(UpdateMsg::Exit))
}

/// The update loop thread is started by the first request and by no later one.
pub proof fn law_update_thread_spawned_once(
    c: UpdaterControl,
    first: Option<UpdateMsg>,
    second: Option<UpdateMsg>,
)
    ensures
        channel_request(c, first).1.spawn_update_thread == !c.update_thread_started,
        !channel_request(channel_request(c, first).0, second).1.spawn_update_thread,
        channel_request(c, first).0.controlling_sessions == c.controlling_sessions,
{
}

/// No session of this client controls another machine.
pub fn has_no_controlling_conns(control: &UpdaterControl) -> (b: bool)
    ensures
        b == (control.controlling_sessions == 0),
{
    control.controlling_sessions == 0
}

/// No connection to this machine is alive and no session controls another.
pub fn has_no_active_conns(control: &UpdaterControl, alive_conns: usize) -> (b: bool)
    ensures
        b == (alive_conns == 0 && control.controlling_sessions == 0),
{
    alive_conns == 0 && has_no_controlling_conns(control)
}

/// The first arguments that mark a process of this app as a controlling
/// session (used where sessions run as separate processes).
pub fn controlling_session_args() -> (r: Vec<&'static str>)
    ensures
        r@.len() == 6,
        r@[0]@ == "--connect"@,
        r@[1]@ == "--play"@,
        r@[2]@ == "--file-transfer"@,
        r@[3]@ == "--view-camera"@,
        r@[4]@ == "--port-forward"@,
        r@[5]@ == "--rdp"@,
{
    vec!["--connect", "--play", "--file-transfer", "--view-camera", "--port-forward", "--rdp"]
}

/// Where sessions run as separate processes: none is controlling when no
/// process was found for any of `controlling_session_args` (`pid_counts[i]`
/// processes for the `i`-th argument).
pub fn has_no_controlling_processes(pid_counts: &[usize]) -> (b: bool)
    ensures
        b == (forall|i: int| 0 <= i < pid_counts@.len() ==> pid_counts@[i] == 0),
{
    let mut i: usize = 0;
    while i < pid_counts.len()
        invariant
            i <= pid_counts@.len(),
            forall|j: int| 0 <= j < i ==> pid_counts@[j] == 0,
        decreases pid_counts@.len() - i,
    {
        if pid_counts[i] != 0 {
            return false;
        }
        i = i + 1;
    }
    true
}


/// A release page resolves on Windows (Flutter) by install form: to the
/// MSI asset for an MSI installation, to the EXE otherwise, under the
/// page's download root.
pub proof fn law_release_page_resolves_by_install_form(u: Seq<char>, prefer_msi: bool)
    requires
        contains_seq(u, release_tag_marker()),
        version_from_update_url(u) is Some,
    ensures
        ({
            let v = version_from_update_url(u).unwrap();
            resolved_download(u, ReleaseTarget::WindowsFlutter { prefer_msi }) == Ok::<
                (Seq<char>, Seq<char>),
                UpdateError,
            >(
                (
                    v,
                    replace_first(u, release_tag_marker(), release_download_marker()).push('/')
                        + (asset_prefix().push('-') + v + "-x86_64."@ + (if prefer_msi {
                        "msi"@
                    } else {
                        "exe"@
                    })),
                ),
            )
        }),
{
}

/// A URL that is not a release page is downloaded as it is, whatever the
/// target.
pub proof fn law_direct_url_downloaded_as_is(u: Seq<char>, target: ReleaseTarget)
    requires
        !contains_seq(u, release_tag_marker()),
        version_from_update_url(u) is Some,
    ensures
        resolved_download(u, target) == Ok::<(Seq<char>, Seq<char>), UpdateError>(
            (version_from_update_url(u).unwrap(), u),
        ),
{
}

/// A step in installing a downloaded update on Windows.
#[derive(Clone, Copy, Debug, PartialEq, Eq, Structural)]
pub enum InstallAction {
    /// Install the MSI package quietly; report whether it succeeded.
    RunMsi,
    /// Stage the custom client's configuration for the new version; report
    /// whether that succeeded.
    StageCustomClient,
    /// Clear what an earlier custom client left staged; its outcome does not
    /// matter.
    ClearStaleStaging,
    /// Start the downloaded executable with `--update`, elevated, in the
    /// current session; report whether it started.
    LaunchUpdater,
    /// Remove the staged custom client configuration.
    RemoveStaging,
    /// Delete the downloaded file.
    RemoveDownload,
    /// Nothing more to do.
    Finish,
}

/// The installation of a downloaded update: the step last handed out, and
/// whether a custom client's configuration was staged for it.
#[derive(Clone, Copy, Debug, PartialEq, Eq, Structural)]
pub struct UpdateInstall {
    pub last: InstallAction,
    pub staged: bool,
}

/// The first step: nothing without a usable file path; the download is
/// dropped when the current session cannot be told; an MSI package is
/// installed directly; otherwise the staging of a custom client is prepared
/// (or a stale one cleared) before the executable is launched.
pub open spec fn install_begin_spec(
    path_ok: bool,
    session_known: bool,
    update_msi: bool,
    is_custom_client: bool,
) -> InstallAction {
    if !path_ok {
        InstallAction::Finish
    } else if !session_known {
        InstallAction::RemoveDownload
    } else if update_msi {
        InstallAction::RunMsi
    } else if is_custom_client {
        InstallAction::StageCustomClient
    } else {
        InstallAction::ClearStaleStaging
    }
}

/// The step after the last one, on its outcome `ok`: a failed MSI install,
/// failed staging or failed launch drops the download (a failed launch
/// first removes what was staged for it); a successful install or launch
/// ends the work.
pub open spec fn install_step(s: UpdateInstall, ok: bool) -> (UpdateInstall, InstallAction) {
    match s.last {
        InstallAction::RunMsi => if ok {
            (UpdateInstall { last: InstallAction::Finish, ..s }, InstallAction::Finish)
        } else {
            (UpdateInstall { last: InstallAction::RemoveDownload, ..s }, InstallAction::RemoveDownload)
        },
        InstallAction::StageCustomClient => if ok {
            (UpdateInstall { last: InstallAction::LaunchUpdater, staged: true }, InstallAction::LaunchUpdater)
        } else {
            (UpdateInstall { last: InstallAction::RemoveDownload, ..s }, InstallAction::RemoveDownload)
        },
        InstallAction::ClearStaleStaging => (
            UpdateInstall { last: InstallAction::LaunchUpdater, staged: false },
            InstallAction::LaunchUpdater,
        ),
        InstallAction::LaunchUpdater => if ok {
            (UpdateInstall { last: InstallAction::Finish, ..s }, InstallAction::Finish)
        } else if s.staged {
            (UpdateInstall { last: InstallAction::RemoveStaging, ..s }, InstallAction::RemoveStaging)
        } else {
            (UpdateInstall { last: InstallAction::RemoveDownload, ..s }, InstallAction::RemoveDownload)
        },
        InstallAction::RemoveStaging => (
            UpdateInstall { last: InstallAction::RemoveDownload, ..s },
            InstallAction::RemoveDownload,
        ),
        _ => (UpdateInstall { last: InstallAction::Finish, ..s }, InstallAction::Finish),
    }
}

/// How many steps are left at most after `a`.
pub open spec fn steps_left(a: InstallAction) -> nat {
    match a {
        InstallAction::StageCustomClient => 4,
        InstallAction::ClearStaleStaging => 4,
        InstallAction::LaunchUpdater => 3,
        InstallAction::RunMsi => 2,
        InstallAction::RemoveStaging => 2,
        InstallAction::RemoveDownload => 1,
        InstallAction::Finish => 0,
    }
}

impl UpdateInstall {
    /// Starts the installation of a downloaded update and gives its first
    /// step.
    pub fn begin(path_ok: bool, session_known: bool, update_msi: bool, is_custom_client: bool) -> (r: (
        UpdateInstall,
        InstallAction,
    ))
        ensures
            r.1 == install_begin_spec(path_ok, session_known, update_msi, is_custom_client),
            r.0 == (UpdateInstall { last: r.1, staged: false }),
    {
        let a = if !path_ok {
            InstallAction::Finish
        } else if !session_known {
            InstallAction::RemoveDownload
        } else if update_msi {
            InstallAction::RunMsi
        } else if is_custom_client {
            InstallAction::StageCustomClient
        } else {
            InstallAction::ClearStaleStaging
        };
        (UpdateInstall { last: a, staged: false }, a)
    }

    /// Takes the outcome of the last step and gives the next one.
    pub fn on_result(&mut self, ok: bool) -> (a: InstallAction)
        ensures
            (*final(self), a) == install_step(*old(self), ok),
    {
        let next = match self.last {
            InstallAction::RunMsi => if ok {
                InstallAction::Finish
            } else {
                InstallAction::RemoveDownload
            },
            InstallAction::StageCustomClient => if ok {
                self.staged = true;
                InstallAction::LaunchUpdater
            } else {
                InstallAction::RemoveDownload
            },
            InstallAction::ClearStaleStaging => {
                self.staged = false;
                InstallAction::LaunchUpdater
            },
            InstallAction::LaunchUpdater => if ok {
                InstallAction::Finish
            } else if self.staged {
                InstallAction::RemoveStaging
            } else {
                InstallAction::RemoveDownload
            },
            InstallAction::RemoveStaging => InstallAction::RemoveDownload,
            _ => InstallAction::Finish,
        };
        self.last = next;
        next
    }
}

/// Every step brings the installation closer to its end: whatever the
/// outcomes, it finishes within four steps after the first.
pub proof fn law_install_terminates(s: UpdateInstall, ok: bool)
    requires
        s.last != InstallAction::Finish,
    ensures
        steps_left(install_step(s, ok).1) < steps_left(s.last),
        install_step(s, ok).0.last == install_step(s, ok).1,
{
}

/// A download is kept only when it was installed or launched: a failed MSI
/// install drops it at once, and a failed launch drops it after removing
/// the configuration staged for it.
pub proof fn law_failure_drops_download(staged: bool, ok: bool)
    ensures
        install_step(UpdateInstall { last: InstallAction::RunMsi, staged }, false).1
            == InstallAction::RemoveDownload,
        install_step(UpdateInstall { last: InstallAction::RunMsi, staged }, true).1
            == InstallAction::Finish,
        install_step(UpdateInstall { last: InstallAction::LaunchUpdater, staged }, true).1
            == InstallAction::Finish,
        ({
            let (s1, a1) = install_step(UpdateInstall { last: InstallAction::LaunchUpdater, staged }, false);
            if staged {
                a1 == InstallAction::RemoveStaging && install_step(s1, ok).1
                    == InstallAction::RemoveDownload
            } else {
                a1 == InstallAction::RemoveDownload
            }
        }),
{
}

/// A custom client's configuration is staged before its launch: the launch
/// after a successful staging knows that there is something to remove.
pub proof fn law_staging_precedes_launch(path_ok: bool, session_known: bool)
    requires
        path_ok,
        session_known,
    ensures
        ({
            let first = install_begin_spec(path_ok, session_known, false, true);
            let (s1, a1) = install_step(UpdateInstall { last: first, staged: false }, true);
            first == InstallAction::StageCustomClient && a1 == InstallAction::LaunchUpdater && s1.staged
        }),
{
}

/// The kind of a downloaded update package, by its name.
#[derive(Clone, Copy, Debug, PartialEq, Eq, Structural)]
pub enum UpdateFileKind {
    /// An executable, run elevated with `--update`.
    Exe,
    /// An MSI package, handed to the installer.
    Msi,
}

/// `.exe` files are executables and `.msi` files packages; any other file
/// is no update package.
pub open spec fn update_file_kind_spec(file: Seq<char>) -> Option<UpdateFileKind> {
    if ends_with_seq(file, ".exe"@) {
        Some(UpdateFileKind::Exe)
    } else if ends_with_seq(file, ".msi"@) {
        Some(UpdateFileKind::Msi)
    } else {
        None
    }
}

pub fn update_file_kind(file: &str) -> (r: Option<UpdateFileKind>)
    ensures
        r == update_file_kind_spec(file@),
{
    let f = chars_of(file);
    if ends_with(&f, &chars_of(".exe")) {
        Some(UpdateFileKind::Exe)
    } else if ends_with(&f, &chars_of(".msi")) {
        Some(UpdateFileKind::Msi)
    } else {
        None
    }
}

/// What lies at the path of a custom client's `custom.txt`.
#[derive(Clone, Copy, Debug, PartialEq, Eq, Structural)]
pub enum CustomFileKind {
    Missing,
    /// A symbolic link, which is never followed.
    Symlink,
    RegularFile,
    /// Anything else, such as a directory.
    Other,
}

/// What to do with a custom client's configuration before an update.
#[derive(Clone, Copy, Debug, PartialEq, Eq, Structural)]
pub enum StageAction {
    /// Nothing to stage.
    Skip,
    /// Refuse the update: the file is a link (the staging area is cleared).
    Refuse,
    /// Copy the file into the staging area.
    Copy,
}

/// Only a regular `custom.txt` is staged; a link stops the update.
pub fn stage_custom_file_action(kind: CustomFileKind) -> (a: StageAction)
    ensures
        a == (match kind {
            CustomFileKind::Symlink => StageAction::Refuse,
            CustomFileKind::RegularFile => StageAction::Copy,
            _ => StageAction::Skip,
        }),
{
    match kind {
        CustomFileKind::Symlink => StageAction::Refuse,
        CustomFileKind::RegularFile => StageAction::Copy,
        _ => StageAction::Skip,
    }
}

/// What the new version does with the staged configuration on its start.
#[derive(Clone, Copy, Debug, PartialEq, Eq, Structural)]
pub enum RestoreStagedAction {
    /// Nothing staged: go on.
    Proceed,
    /// The staged file is a link: refuse it.
    Refuse,
    /// Copy the staged file beside the executable and load it.
    CopyAndLoad,
}

/// A staged link is refused and a staged regular file loaded; otherwise
/// there is nothing to restore.
pub fn restore_staged_action(staging_dir_exists: bool, kind: CustomFileKind) -> (a: RestoreStagedAction)
    ensures
        a == (if !staging_dir_exists {
            RestoreStagedAction::Proceed
        } else {
            match kind {
                CustomFileKind::Symlink => RestoreStagedAction::Refuse,
                CustomFileKind::RegularFile => RestoreStagedAction::CopyAndLoad,
                _ => RestoreStagedAction::Proceed,
            }
        }),
{
    if !staging_dir_exists {
        return RestoreStagedAction::Proceed;
    }
    match kind {
        CustomFileKind::Symlink => RestoreStagedAction::Refuse,
        CustomFileKind::RegularFile => RestoreStagedAction::CopyAndLoad,
        _ => RestoreStagedAction::Proceed,
    }
}

/// The restored configuration is good unless a copied file was there and
/// still no custom client was loaded from it.
pub fn staged_load_succeeded(copied_file_exists: bool, is_custom_client: bool) -> (b: bool)
    ensures
        b == !(copied_file_exists && !is_custom_client),
{
    !(copied_file_exists && !is_custom_client)
}

/// A version as releases name it: one or more ASCII digits and dots.
pub open spec fn is_version_text(v: Seq<char>) -> bool {
    v.len() > 0 && forall|i: int| 0 <= i < v.len() ==> ('0' <= #[trigger] v[i] <= '9' || v[i] == '.')
}

/// The suffix that an asset name adds after its version.
pub open spec fn asset_suffix(target: ReleaseTarget) -> Seq<char> {
    match target {
        ReleaseTarget::WindowsFlutter { prefer_msi } => "-x86_64."@ + (if prefer_msi {
            "msi"@
        } else {
            "exe"@
        }),
        ReleaseTarget::WindowsSciter => "-x86-sciter.exe"@,
        ReleaseTarget::MacX86_64 => "-x86_64.dmg"@,
        ReleaseTarget::MacAarch64 => "-aarch64.dmg"@,
        ReleaseTarget::Unsupported => seq![],
    }
}

proof fn lemma_marker_after_version(v: Seq<char>, suffix: Seq<char>, m: Seq<char>, i: int)
    requires
        is_version_text(v),
        m.len() > 0,
        m[0] == '-',
        occurs_at(v + suffix, m, i),
    ensures
        i >= v.len(),
        occurs_at(suffix, m, i - v.len()),
{
    let rest = v + suffix;
    assert(rest.subrange(i, i + m.len())[0] == m[0]);
    assert(rest[i] == '-');
    if i < v.len() {
        assert(rest[i] == v[i]);
    }
    assert(suffix.subrange(i - v.len(), i - v.len() + m.len()) =~= rest.subrange(i, i + m.len()));
}

proof fn lemma_version_before_suffix(v: Seq<char>, target: ReleaseTarget)
    requires
        is_version_text(v),
        target != ReleaseTarget::Unsupported,
    ensures
        version_before_marker(v + asset_suffix(target)) == Some(v),
{
    reveal_strlit("-x86_64.");
    reveal_strlit("-x86-sciter.");
    reveal_strlit("-aarch64.");
    reveal_strlit("msi");
    reveal_strlit("exe");
    reveal_strlit("-x86-sciter.exe");
    reveal_strlit("-x86_64.dmg");
    reveal_strlit("-aarch64.dmg");
    let suffix = asset_suffix(target);
    let rest = v + suffix;
    let m1 = "-x86_64."@;
    let m2 = "-x86-sciter."@;
    let m3 = "-aarch64."@;
    assert forall|i: int| occurs_at(rest, m1, i) implies i >= v.len() && occurs_at(suffix, m1, i - v.len()) by {
        lemma_marker_after_version(v, suffix, m1, i);
    }
    assert forall|i: int| occurs_at(rest, m2, i) implies i >= v.len() && occurs_at(suffix, m2, i - v.len()) by {
        lemma_marker_after_version(v, suffix, m2, i);
    }
    assert forall|i: int| occurs_at(rest, m3, i) implies i >= v.len() && occurs_at(suffix, m3, i - v.len()) by {
        lemma_marker_after_version(v, suffix, m3, i);
    }
    match target {
        ReleaseTarget::WindowsFlutter { .. } => {
            assert(rest.subrange(v.len() as int, (v.len() + m1.len()) as int) =~= m1);
            assert(is_first_occ(rest, m1, v.len() as int));
            lemma_first_occ_is(rest, m1, v.len() as int);
            assert(rest.take(v.len() as int) =~= v);
        },
        ReleaseTarget::MacX86_64 => {
            assert(rest.subrange(v.len() as int, (v.len() + m1.len()) as int) =~= m1);
            assert(is_first_occ(rest, m1, v.len() as int));
            lemma_first_occ_is(rest, m1, v.len() as int);
            assert(rest.take(v.len() as int) =~= v);
        },
        ReleaseTarget::WindowsSciter => {
            assert forall|j: int| !occurs_at(suffix, m1, j) by {
                if occurs_at(suffix, m1, j) {
                    let w = suffix.subrange(j, j + m1.len());
                    assert(w[0] == '-' && w[4] == '_');
                    assert(suffix[j] == '-');
                    assert(suffix[j + 4] == '_');
                }
            }
            assert(!contains_seq(rest, m1));
            assert(rest.subrange(v.len() as int, (v.len() + m2.len()) as int) =~= m2);
            assert(is_first_occ(rest, m2, v.len() as int));
            lemma_first_occ_is(rest, m2, v.len() as int);
            assert(rest.take(v.len() as int) =~= v);
        },
        ReleaseTarget::MacAarch64 => {
            assert forall|j: int| !occurs_at(suffix, m1, j) by {
                if occurs_at(suffix, m1, j) {
                    let w = suffix.subrange(j, j + m1.len());
                    assert(w[1] == 'x');
                    assert(suffix[j + 1] == 'x');
                }
            }
            assert forall|j: int| !occurs_at(suffix, m2, j) by {
                if occurs_at(suffix, m2, j) {
                    let w = suffix.subrange(j, j + m2.len());
                    assert(w[1] == 'x');
                    assert(suffix[j + 1] == 'x');
                }
            }
            assert(!contains_seq(rest, m1));
            assert(!contains_seq(rest, m2));
            assert(rest.subrange(v.len() as int, (v.len() + m3.len()) as int) =~= m3);
            assert(is_first_occ(rest, m3, v.len() as int));
            lemma_first_occ_is(rest, m3, v.len() as int);
            assert(rest.take(v.len() as int) =~= v);
        },
        ReleaseTarget::Unsupported => {},
    }
}

/// The version read back from the URL of a release asset is the version
/// the asset was named for, under any download root that does not itself
/// hold the asset prefix.
pub proof fn law_version_round_trip(root: Seq<char>, v: Seq<char>, target: ReleaseTarget)
    requires
        is_version_text(v),
        !contains_seq(root, asset_prefix().push('-')),
        asset_filename(v, target) is Some,
    ensures
        version_from_update_url(root + "/"@ + asset_filename(v, target).unwrap()) == Some(v),
{
    reveal_strlit("hdesk");
    reveal_strlit("/");
    reveal_strlit("-x86_64.");
    reveal_strlit("msi");
    reveal_strlit("exe");
    reveal_strlit("-x86-sciter.exe");
    reveal_strlit("-x86_64.dmg");
    reveal_strlit("-aarch64.dmg");
    let p = asset_prefix().push('-');
    let name = asset_filename(v, target).unwrap();
    let suffix = asset_suffix(target);
    assert(name =~= p + v + suffix);
    let u = root + "/"@ + name;
    let k: int = (root.len() + 1) as int;
    assert(u.subrange(k, k + p.len()) =~= p);
    assert forall|j: int| 0 <= j < k implies !occurs_at(u, p, j) by {
        if occurs_at(u, p, j) {
            if j + p.len() <= root.len() {
                assert(root.subrange(j, j + p.len()) =~= u.subrange(j, j + p.len()));
                assert(occurs_at(root, p, j));
            } else {
                let w = u.subrange(j, j + p.len());
                assert(w[root.len() - j] == u[root.len() as int]);
                assert(u[root.len() as int] == '/');
            }
        }
    }
    assert(is_first_occ(u, p, k));
    lemma_first_occ_is(u, p, k);
    assert(u.skip(k + p.len()) =~= v + suffix);
    lemma_version_before_suffix(v, target);
}

} // verus!
