//! The release check: which published tag counts as an update for the
//! running build, when the automatic check fires, and what its result does
//! to the update status.
use vstd::prelude::*;

use crate::domain::{BridgeError, UpdateCheckOutcome, UpdateInfo};
use crate::i18n::{text, text_spec, Language};
use crate::strings::{chars_of, push_str, string_from_chars, trim_spec, trimmed};

verus! {

broadcast use vstd::string::group_string_axioms;

/// Shortest pause between two automatic checks, in seconds (one day).
pub const UPDATE_AUTO_CHECK_INTERVAL_SECS: i64 = 86400;

/// Delay after launch before the automatic check may fire, in milliseconds.
pub const UPDATE_STARTUP_DELAY_MILLIS: u64 = 5000;

#[verifier::external_type_specification]
#[verifier::external_body]
pub struct ExVersion(semver::Version);

/// Whether `semver::Version::from_str` accepts `text`.
pub uninterp spec fn semver_valid(text: Seq<char>) -> bool;

/// Whether the version `left` parses to orders after the one `right` parses
/// to (`semver::Version`'s `>`: major, minor, patch, then pre-release and
/// build metadata by semver precedence).
pub uninterp spec fn semver_greater(left: Seq<char>, right: Seq<char>) -> bool;

/// The `Display` text of the version `text` parses to.
pub uninterp spec fn semver_display(text: Seq<char>) -> Seq<char>;

/// `s` without its leading `v` and `V` characters.
pub open spec fn strip_version_prefix(s: Seq<char>) -> Seq<char>
    decreases s.len(),
{
    if s.len() > 0 && (s[0] == 'v' || s[0] == 'V') {
        strip_version_prefix(s.drop_first())
    } else {
        s
    }
}

/// The version text of a tag: trimmed, leading `v`/`V` removed.
pub open spec fn version_text_spec(tag: Seq<char>) -> Seq<char> {
    strip_version_prefix(trim_spec(tag))
}

/// The version text of a tag, as compared: `tag.trim().trim_start_matches(['v', 'V'])`.
pub fn version_text(tag: &str) -> (version: String)
    ensures
        version@ == version_text_spec(tag@),
{
    let t = trimmed(tag);
    let chars = chars_of(t.as_str());
    let mut start: usize = 0;
    assert(chars@.skip(0) =~= chars@);
    while start < chars.len() && (chars[start] == 'v' || chars[start] == 'V')
        invariant
            start <= chars@.len(),
            strip_version_prefix(chars@) == strip_version_prefix(chars@.skip(start as int)),
        decreases chars@.len() - start,
    {
        assert(chars@.skip(start as int).drop_first() =~= chars@.skip(start + 1));
        start = start + 1;
    }
    assert(chars@.subrange(start as int, chars@.len() as int) =~= chars@.skip(start as int));
    string_from_chars(vstd::slice::slice_subrange(chars.as_slice(), start, chars.len()))
}

/// A version as `semver` parsed it from a text, kept together with that
/// text; only [`ReleaseVersion::parse`] makes one.
pub struct ReleaseVersion {
    source: String,
    version: semver::Version,
}

impl View for ReleaseVersion {
    type V = Seq<char>;

    /// The text the version was parsed from.
    closed spec fn view(&self) -> Seq<char> {
        self.source@
    }
}

impl ReleaseVersion {
    /// `text.parse::<semver::Version>()`, keeping `text` with the result.
    #[verifier::external_body]
    pub fn parse(text: &str) -> (parsed: Option<Self>)
        ensures
            parsed is Some == semver_valid(text@),
            parsed matches Some(v) ==> v@ == text@,
    {
        text.parse::<semver::Version>().ok().map(
            |version| ReleaseVersion { source: text.to_owned(), version },
        )
    }

    /// `semver::Version`'s `>` on the two parsed versions (a derived total
    /// order, so a version is never greater than an equal one).
    #[verifier::external_body]
    pub fn is_newer_than(&self, other: &ReleaseVersion) -> (newer: bool)
        ensures
            newer == semver_greater(self@, other@),
            self@ == other@ ==> !newer,
    {
        self.version > other.version
    }

    /// `Version::to_string`.
    #[verifier::external_body]
    pub fn to_text(&self) -> (shown: String)
        ensures
            shown@ == semver_display(self@),
    {
        self.version.to_string()
    }
}

/// Whether `tag` advertises a release newer than the running `current`
/// version: both parse as semver after trimming and dropping a `v`/`V`
/// prefix, and the tag's version orders after the running one.
pub open spec fn update_available(tag: Seq<char>, current: Seq<char>) -> bool {
    let latest = version_text_spec(tag);
    let running = version_text_spec(current);
    semver_valid(latest) && semver_valid(running) && semver_greater(latest, running)
}

/// The outcome for a compared release: available (with its version text and
/// page) when it is newer, up to date otherwise.
pub fn release_outcome(newer: bool, version: String, url: &str) -> (outcome: UpdateCheckOutcome)
    ensures
        newer ==> (outcome matches UpdateCheckOutcome::Available(info) && info.version@
            == version@ && info.url@ == url@),
        !newer ==> outcome is UpToDate,
{
    if newer {
        UpdateCheckOutcome::Available(UpdateInfo { version, url: url.to_owned() })
    } else {
        UpdateCheckOutcome::UpToDate
    }
}

/// Compares a release tag against the running version. A tag that does not
/// parse (or an empty one) counts as up to date: a malformed advertisement
/// stays quiet.
pub fn evaluate_update(tag_name: &str, url: &str, current: &str) -> (outcome: UpdateCheckOutcome)
    ensures
        update_available(tag_name@, current@) ==> (outcome matches UpdateCheckOutcome::Available(info)
            && info.version@ == semver_display(version_text_spec(tag_name@)) && info.url@ == url@),
        !update_available(tag_name@, current@) ==> outcome is UpToDate,
        version_text_spec(tag_name@) == version_text_spec(current@) ==> outcome is UpToDate,
{
    let latest_text = version_text(tag_name);
    let running_text = version_text(current);
    let latest = ReleaseVersion::parse(latest_text.as_str());
    let running = ReleaseVersion::parse(running_text.as_str());
    match (latest, running) {
        (Some(latest), Some(running)) => {
            let newer = latest.is_newer_than(&running);
            release_outcome(newer, latest.to_text(), url)
        },
        _ => UpdateCheckOutcome::UpToDate,
    }
}

// ---------------------------------------------------------------------------
// Update state

/// Lifecycle of the update check shown in the settings window.
#[derive(Debug)]
pub enum UpdateStatus {
    /// No check has run yet this launch.
    Idle,
    Checking,
    UpToDate,
    Available(UpdateInfo),
    Failed(String),
}

/// The persisted update preferences.
#[derive(Clone, Copy, Debug, PartialEq, Eq, Structural)]
pub struct UpdatePrefs {
    pub auto_check: bool,
    pub last_check_epoch: Option<i64>,
}

/// Update-check state plus the persisted preferences.
#[derive(Debug)]
pub struct UpdateState {
    pub status: UpdateStatus,
    /// Whether the automatic startup check is enabled.
    pub auto_check: bool,
    /// Unix seconds of the last successful check; failures leave it alone so
    /// an offline machine retries on the next launch.
    pub last_check_epoch: Option<i64>,
    /// The startup check fires at most once per launch.
    pub startup_check_sent: bool,
}

/// Whether the last successful check is old enough for an automatic one:
/// there was none, or it is at least a day before `now`.
pub open spec fn check_is_stale(last_check_epoch: Option<i64>, now_epoch: i64) -> bool {
    match last_check_epoch {
        None => true,
        Some(last) => now_epoch - last >= UPDATE_AUTO_CHECK_INTERVAL_SECS,
    }
}

/// Whether the automatic check fires now: it is enabled, has not fired this
/// launch, the startup delay has passed and the last check is stale.
pub open spec fn auto_check_due(
    state: UpdateState,
    now_epoch: i64,
    since_launch_millis: u64,
) -> bool {
    &&& state.auto_check
    &&& !state.startup_check_sent
    &&& since_launch_millis >= UPDATE_STARTUP_DELAY_MILLIS
    &&& check_is_stale(state.last_check_epoch, now_epoch)
}

/// `after` is `before` once a check finished at `now_epoch` with `result`:
/// a successful round trip stamps the time and shows its outcome; a failure
/// shows the error's detail and leaves the time alone.
pub open spec fn update_recorded(
    after: UpdateState,
    before: UpdateState,
    result: Result<UpdateCheckOutcome, BridgeError>,
    now_epoch: i64,
) -> bool {
    &&& after.auto_check == before.auto_check
    &&& after.startup_check_sent == before.startup_check_sent
    &&& match result {
        Ok(UpdateCheckOutcome::UpToDate) => {
            &&& after.last_check_epoch == Some(now_epoch)
            &&& after.status is UpToDate
        },
        Ok(UpdateCheckOutcome::Available(info)) => {
            &&& after.last_check_epoch == Some(now_epoch)
            &&& after.status == UpdateStatus::Available(info)
        },
        Err(error) => {
            &&& after.last_check_epoch == before.last_check_epoch
            &&& after.status matches UpdateStatus::Failed(detail) && detail@ == error.detail@
        },
    }
}

/// The version of the update a check result announces, if any.
pub open spec fn found_version(result: Result<UpdateCheckOutcome, BridgeError>) -> Option<
    Seq<char>,
> {
    match result {
        Ok(UpdateCheckOutcome::Available(info)) => Some(info.version@),
        _ => None,
    }
}

/// The automatic check fires at most once per launch: once it was sent it is
/// never due again, whatever the time.
pub proof fn lemma_auto_check_once(state: UpdateState, now_epoch: i64, since_launch_millis: u64)
    requires
        state.startup_check_sent,
    ensures
        !auto_check_due(state, now_epoch, since_launch_millis),
{
}

impl UpdateState {
    /// The state at launch: idle, with the stored preferences (automatic
    /// checks on and no previous check when nothing was stored).
    pub fn from_prefs(prefs: Option<UpdatePrefs>) -> (state: Self)
        ensures
            state.status is Idle,
            !state.startup_check_sent,
            state.auto_check == match prefs {
                Some(p) => p.auto_check,
                None => true,
            },
            state.last_check_epoch == match prefs {
                Some(p) => p.last_check_epoch,
                None => None,
            },
    {
        UpdateState {
            status: UpdateStatus::Idle,
            auto_check: match prefs {
                Some(p) => p.auto_check,
                None => true,
            },
            last_check_epoch: match prefs {
                Some(p) => p.last_check_epoch,
                None => None,
            },
            startup_check_sent: false,
        }
    }

    /// The preferences to persist.
    pub fn prefs(&self) -> (prefs: UpdatePrefs)
        ensures
            prefs.auto_check == self.auto_check,
            prefs.last_check_epoch == self.last_check_epoch,
    {
        UpdatePrefs { auto_check: self.auto_check, last_check_epoch: self.last_check_epoch }
    }

    /// Whether the last successful check is stale at `now_epoch`.
    pub fn is_stale(&self, now_epoch: i64) -> (stale: bool)
        ensures
            stale == check_is_stale(self.last_check_epoch, now_epoch),
    {
        match self.last_check_epoch {
            None => true,
            Some(last) => (now_epoch as i128) - (last as i128)
                >= UPDATE_AUTO_CHECK_INTERVAL_SECS as i128,
        }
    }

    /// Fires the once-per-launch automatic check when it is due: marks it
    /// sent, shows the status as checking and returns `true` (the caller then
    /// sends the check command). Otherwise nothing changes.
    pub fn start_auto_check(&mut self, now_epoch: i64, since_launch_millis: u64) -> (fire: bool)
        ensures
            fire == auto_check_due(*old(self), now_epoch, since_launch_millis),
            fire ==> final(self).startup_check_sent && final(self).status is Checking
                && final(self).auto_check == old(self).auto_check
                && final(self).last_check_epoch == old(self).last_check_epoch,
            !fire ==> *final(self) == *old(self),
    {
        let stale = self.is_stale(now_epoch);
        if self.auto_check && !self.startup_check_sent
            && since_launch_millis >= UPDATE_STARTUP_DELAY_MILLIS && stale {
            self.startup_check_sent = true;
            self.status = UpdateStatus::Checking;
            true
        } else {
            false
        }
    }

    /// Marks a check started from the settings window, which always fires.
    pub fn start_manual_check(&mut self)
        ensures
            final(self).status is Checking,
            final(self).auto_check == old(self).auto_check,
            final(self).last_check_epoch == old(self).last_check_epoch,
            final(self).startup_check_sent == old(self).startup_check_sent,
    {
        self.status = UpdateStatus::Checking;
    }

    /// Records the result of a check finished at `now_epoch`; see
    /// [`update_recorded`]. Returns the version of a found update.
    pub fn record_result(
        &mut self,
        result: Result<UpdateCheckOutcome, BridgeError>,
        now_epoch: i64,
    ) -> (found: Option<String>)
        ensures
            update_recorded(*final(self), *old(self), result, now_epoch),
            match found {
                Some(v) => found_version(result) == Some(v@),
                None => found_version(result) is None,
            },
    {
        match result {
            Ok(outcome) => {
                self.last_check_epoch = Some(now_epoch);
                match outcome {
                    UpdateCheckOutcome::UpToDate => {
                        self.status = UpdateStatus::UpToDate;
                        None
                    },
                    UpdateCheckOutcome::Available(info) => {
                        let version = info.version.clone();
                        self.status = UpdateStatus::Available(info);
                        Some(version)
                    },
                }
            },
            Err(error) => {
                self.status = UpdateStatus::Failed(error.detail);
                None
            },
        }
    }
}

/// The toast announcing a found update: the translated label, a space, `v`
/// and the version.
pub fn update_toast_text(language: Language, version: &str) -> (shown: String)
    ensures
        shown@ == text_spec(language, "update.available"@) + " v"@ + version@,
{
    let mut shown = String::new();
    push_str(&mut shown, text(language, "update.available"));
    push_str(&mut shown, " v");
    push_str(&mut shown, version);
    proof {
        reveal_strlit(" v");
    }
    shown
}

} // verus!
