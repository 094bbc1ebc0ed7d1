//! Status detection: which process a version probe runs, and how what came
//! back is classified.

use crate::catalog::{
    id_at, key_of, name_of, probe_of, ProbeView, SoftwareId, VersionProbe, SOFTWARE_COUNT,
};
use crate::manager::{SoftwareManager, StatusReport, StatusState, StatusView};
use vstd::prelude::*;
use vstd::string::*;

verus! {

/// The characters with the Unicode `White_Space` property.
pub open spec fn is_white_space(c: char) -> bool {
    let u = c as u32;
    (0x9 <= u && u <= 0xd) || u == 0x20 || u == 0x85 || u == 0xa0 || u == 0x1680 || (0x2000 <= u
        && u <= 0x200a) || u == 0x2028 || u == 0x2029 || u == 0x202f || u == 0x205f || u == 0x3000
}

/// Whether a character has the Unicode `White_Space` property.
pub fn white_space(c: char) -> (r: bool)
    ensures
        r == is_white_space(c),
{
    let u = c as u32;
    (0x9 <= u && u <= 0xd) || u == 0x20 || u == 0x85 || u == 0xa0 || u == 0x1680 || (0x2000 <= u
        && u <= 0x200a) || u == 0x2028 || u == 0x2029 || u == 0x202f || u == 0x205f || u == 0x3000
}

/// The characters that stripping removes: double quotes, or white space.
pub open spec fn strips(c: char, quotes: bool) -> bool {
    if quotes {
        c == '"'
    } else {
        is_white_space(c)
    }
}

/// The first position at or after `i` whose character is not stripped.
pub open spec fn strip_front(s: Seq<char>, i: int, quotes: bool) -> int
    decreases s.len() - i,
{
    if i >= s.len() {
        s.len() as int
    } else if strips(s[i], quotes) {
        strip_front(s, i + 1, quotes)
    } else {
        i
    }
}

/// The end of `s[lo..j]` once stripped characters are taken off its back.
pub open spec fn strip_back(s: Seq<char>, lo: int, j: int, quotes: bool) -> int
    decreases j - lo,
{
    if j <= lo {
        lo
    } else if strips(s[j - 1], quotes) {
        strip_back(s, lo, j - 1, quotes)
    } else {
        j
    }
}

/// `s` without stripped characters at either end.
pub open spec fn stripped(s: Seq<char>, quotes: bool) -> Seq<char> {
    let a = strip_front(s, 0, quotes);
    s.subrange(a, strip_back(s, a, s.len() as int, quotes))
}

proof fn lemma_strip_front_bounds(s: Seq<char>, i: int, quotes: bool)
    requires
        0 <= i <= s.len(),
    ensures
        i <= strip_front(s, i, quotes) <= s.len(),
    decreases s.len() - i,
{
    if i < s.len() && strips(s[i], quotes) {
        lemma_strip_front_bounds(s, i + 1, quotes);
    }
}

proof fn lemma_strip_back_bounds(s: Seq<char>, lo: int, j: int, quotes: bool)
    requires
        0 <= lo <= j <= s.len(),
    ensures
        lo <= strip_back(s, lo, j, quotes) <= j,
    decreases j - lo,
{
    if j > lo && strips(s[j - 1], quotes) {
        lemma_strip_back_bounds(s, lo, j - 1, quotes);
    }
}

fn strips_char(c: char, quotes: bool) -> (r: bool)
    ensures
        r == strips(c, quotes),
{
    if quotes {
        c == '"'
    } else {
        white_space(c)
    }
}

/// `s` without white space (or, with `quotes`, double quotes) at either end.
pub fn strip(s: &str, quotes: bool) -> (r: String)
    ensures
        r@ == stripped(s@, quotes),
{
    let n = s.unicode_len();
    let mut a: usize = 0;
    while a < n && strips_char(s.get_char(a), quotes)
        invariant
            a <= n,
            n == s@.len(),
            strip_front(s@, a as int, quotes) == strip_front(s@, 0, quotes),
        decreases n - a,
    {
        a += 1;
    }
    let mut b: usize = n;
    while b > a && strips_char(s.get_char(b - 1), quotes)
        invariant
            a <= b <= n,
            n == s@.len(),
            strip_back(s@, a as int, b as int, quotes) == strip_back(s@, a as int, n as int, quotes),
        decreases b - a,
    {
        b -= 1;
    }
    String::from_str(s.substring_char(a, b))
}

/// The first position at or after `i` that holds `c1` or `c2`, or the end.
pub open spec fn scan_to(s: Seq<char>, i: int, c1: char, c2: char) -> int
    decreases s.len() - i,
{
    if i >= s.len() {
        s.len() as int
    } else if s[i] == c1 || s[i] == c2 {
        i
    } else {
        scan_to(s, i + 1, c1, c2)
    }
}

proof fn lemma_scan_bounds(s: Seq<char>, i: int, c1: char, c2: char)
    requires
        0 <= i <= s.len(),
    ensures
        i <= scan_to(s, i, c1, c2) <= s.len(),
    decreases s.len() - i,
{
    if i < s.len() && !(s[i] == c1 || s[i] == c2) {
        lemma_scan_bounds(s, i + 1, c1, c2);
    }
}

fn scan(s: &str, n: usize, i: usize, c1: char, c2: char) -> (r: usize)
    requires
        n == s@.len(),
        i <= n,
    ensures
        r == scan_to(s@, i as int, c1, c2),
        i <= r <= n,
{
    proof {
        lemma_scan_bounds(s@, i as int, c1, c2);
    }
    let mut k = i;
    while k < n && s.get_char(k) != c1 && s.get_char(k) != c2
        invariant
            i <= k <= n,
            n == s@.len(),
            scan_to(s@, k as int, c1, c2) == scan_to(s@, i as int, c1, c2),
        decreases n - k,
    {
        k += 1;
    }
    k
}

/// The text of the first line of metadata output that holds `=`, from after
/// its first `=` to the end of that line.
pub open spec fn metadata_value(out: Seq<char>) -> Option<Seq<char>> {
    let e = scan_to(out, 0, '=', '=');
    if e >= out.len() {
        None
    } else {
        Some(out.subrange(e + 1, scan_to(out, e + 1, '\n', '\n')))
    }
}

/// A version string, or none where it is empty.
pub open spec fn version_of(v: Seq<char>) -> Option<Seq<char>> {
    if v.len() == 0 {
        None
    } else {
        Some(v)
    }
}

/// The status that bundle metadata output reports: installed, with the value
/// found trimmed of white space and then of double quotes.
pub open spec fn metadata_status(out: Seq<char>) -> StatusView {
    match metadata_value(out) {
        None => StatusView::Installed { version: None },
        Some(v) => StatusView::Installed { version: version_of(stripped(stripped(v, false), true)) },
    }
}

fn installed(v: String) -> (r: StatusState)
    ensures
        r@ == (StatusView::Installed { version: version_of(v@) }),
{
    if v.as_str().unicode_len() == 0 {
        StatusState::Installed { version: None }
    } else {
        StatusState::Installed { version: Some(v) }
    }
}

/// Reads the version out of bundle metadata output.
pub fn parse_mdls_version_output(out: &str) -> (r: StatusState)
    ensures
        r@ == metadata_status(out@),
{
    let n = out.unicode_len();
    let e = scan(out, n, 0, '=', '=');
    if e >= n {
        return StatusState::Installed { version: None };
    }
    let end = scan(out, n, e + 1, '\n', '\n');
    let raw = out.substring_char(e + 1, end);
    let trimmed = strip(raw, false);
    let cleaned = strip(trimmed.as_str(), true);
    installed(cleaned)
}

/// What a probe asks to be run.
pub enum ProbeRequest {
    /// Query the metadata of the application bundle at this path.
    Bundle { path: &'static str },
    /// Run this program with these arguments.
    Program { program: &'static str, args: Vec<&'static str> },
    /// Nothing runs: the check is made by hand.
    Note(&'static str),
}

/// The request with its strings as character sequences.
pub enum RequestView {
    Bundle { path: Seq<char> },
    Program { program: Seq<char>, args: Seq<Seq<char>> },
    Note(Seq<char>),
}

/// The characters of each word.
pub open spec fn word_views(words: Seq<&'static str>) -> Seq<Seq<char>> {
    words.map_values(|w: &'static str| w@)
}

impl View for ProbeRequest {
    type V = RequestView;

    open spec fn view(&self) -> RequestView {
        match self {
            ProbeRequest::Bundle { path } => RequestView::Bundle { path: path@ },
            ProbeRequest::Program { program, args } => RequestView::Program {
                program: program@,
                args: word_views(args@),
            },
            ProbeRequest::Note(n) => RequestView::Note(n@),
        }
    }
}

/// What a probe asks to be run: a package manager listing runs the manager.
pub open spec fn request_of(p: ProbeView) -> RequestView {
    match p {
        ProbeView::Mdls { path } => RequestView::Bundle { path },
        ProbeView::Command { program, args } => RequestView::Program {
            program,
            args: word_views(args),
        },
        ProbeView::BrewList { package } => RequestView::Program {
            program: "brew"@,
            args: seq!["list"@, "--versions"@, package],
        },
        ProbeView::Manual(n) => RequestView::Note(n),
    }
}

/// What happened when a probe's process was started.
pub enum ProbeOutcome {
    /// It ran and exited, successfully or not, with this standard output.
    Exited { success: bool, stdout: String },
    /// The program does not exist on this system.
    NotFound,
    /// It could not be started for another reason, given here.
    Failed(String),
}

/// The outcome with its strings as character sequences.
pub enum OutcomeView {
    Exited { success: bool, stdout: Seq<char> },
    NotFound,
    Failed(Seq<char>),
}

impl View for ProbeOutcome {
    type V = OutcomeView;

    open spec fn view(&self) -> OutcomeView {
        match self {
            ProbeOutcome::Exited { success, stdout } => OutcomeView::Exited {
                success: *success,
                stdout: stdout@,
            },
            ProbeOutcome::NotFound => OutcomeView::NotFound,
            ProbeOutcome::Failed(m) => OutcomeView::Failed(m@),
        }
    }
}

/// The status a program probe reports.
pub open spec fn program_status(o: OutcomeView) -> StatusView {
    match o {
        OutcomeView::Exited { success: true, stdout } => StatusView::Installed {
            version: version_of(stripped(stdout, false)),
        },
        OutcomeView::Exited { success: false, .. } => StatusView::NotInstalled,
        OutcomeView::NotFound => StatusView::NotInstalled,
        OutcomeView::Failed(m) => StatusView::Unknown(m),
    }
}

/// The status a bundle metadata probe reports.
pub open spec fn bundle_status(o: OutcomeView) -> StatusView {
    match o {
        OutcomeView::Exited { success: true, stdout } => metadata_status(stdout),
        OutcomeView::Exited { success: false, .. } => StatusView::NotInstalled,
        _ => StatusView::Unknown("failed to run mdls"@),
    }
}

/// The status a probe reports, given what happened when it ran.
pub open spec fn detected(p: ProbeView, o: OutcomeView) -> StatusView {
    match p {
        ProbeView::Mdls { .. } => bundle_status(o),
        ProbeView::Manual(n) => StatusView::ManualCheck(n),
        _ => program_status(o),
    }
}

impl VersionProbe {
    /// The process this probe runs, if any.
    pub fn request(&self) -> (r: ProbeRequest)
        ensures
            r@ == request_of(self@),
    {
        match self {
            VersionProbe::Mdls { path } => ProbeRequest::Bundle { path },
            VersionProbe::Command { program, args } => ProbeRequest::Program {
                program,
                args: args.clone(),
            },
            VersionProbe::BrewList { package } => {
                let args = vec!["list", "--versions", package];
                assert(word_views(args@) =~= seq!["list"@, "--versions"@, package@]);
                ProbeRequest::Program { program: "brew", args }
            },
            VersionProbe::Manual(note) => ProbeRequest::Note(note),
        }
    }
}

/// Classifies a program probe's outcome: a successful exit is installed with
/// its trimmed output as version; a failed exit or a missing program is not
/// installed; any other failure to start is unknown.
pub fn classify_program(outcome: &ProbeOutcome) -> (r: StatusState)
    ensures
        r@ == program_status(outcome@),
        outcome is NotFound ==> r@ is NotInstalled,
        outcome matches ProbeOutcome::Exited { success: false, .. } ==> r@ is NotInstalled,
        outcome is Failed ==> r@ is Unknown,
{
    match outcome {
        ProbeOutcome::Exited { success, stdout } => {
            if *success {
                installed(strip(stdout.as_str(), false))
            } else {
                StatusState::NotInstalled
            }
        },
        ProbeOutcome::NotFound => StatusState::NotInstalled,
        ProbeOutcome::Failed(m) => StatusState::Unknown(m.clone()),
    }
}

/// Classifies a bundle metadata probe's outcome.
pub fn classify_bundle(outcome: &ProbeOutcome) -> (r: StatusState)
    ensures
        r@ == bundle_status(outcome@),
{
    match outcome {
        ProbeOutcome::Exited { success, stdout } => {
            if *success {
                parse_mdls_version_output(stdout.as_str())
            } else {
                StatusState::NotInstalled
            }
        },
        _ => StatusState::Unknown(String::from_str("failed to run mdls")),
    }
}

/// The status a probe reports, given what happened when its request ran; a
/// manual probe runs nothing and reports its note.
pub fn detect_version(probe: &VersionProbe, outcome: &ProbeOutcome) -> (r: StatusState)
    ensures
        r@ == detected(probe@, outcome@),
{
    match probe {
        VersionProbe::Mdls { .. } => classify_bundle(outcome),
        VersionProbe::Manual(note) => StatusState::ManualCheck(String::from_str(note)),
        _ => classify_program(outcome),
    }
}

/// For a probe that runs a program: a program that does not exist, or one
/// that exits with failure, means not installed; one that cannot be started
/// for another reason means unknown.
pub proof fn lemma_program_probe_outcomes(p: ProbeView, o: OutcomeView)
    requires
        p is Command || p is BrewList,
    ensures
        o is NotFound ==> detected(p, o) is NotInstalled,
        o matches OutcomeView::Exited { success: false, .. } ==> detected(p, o) is NotInstalled,
        o is Failed ==> detected(p, o) is Unknown,
{
}

/// Runs shell commands and probes on the caller's behalf; in a dry run no
/// command is started and each is reported as having succeeded.
pub struct CommandExecutor {
    pub dry_run: bool,
}

impl CommandExecutor {
    pub fn new(dry_run: bool) -> (r: Self)
        ensures
            r.dry_run == dry_run,
    {
        CommandExecutor { dry_run }
    }

    /// The executor status probes use: probes always run.
    pub fn for_status() -> (r: Self)
        ensures
            !r.dry_run,
    {
        CommandExecutor { dry_run: false }
    }

    pub fn dry_run(&self) -> (r: bool)
        ensures
            r == self.dry_run,
    {
        self.dry_run
    }

    /// Whether a shell command has to be started at all; when it does not,
    /// it counts as having succeeded.
    pub fn must_spawn(&self) -> (r: bool)
        ensures
            r == !self.dry_run,
    {
        !self.dry_run
    }

    /// The status a probe reports, given what happened when its request ran.
    pub fn detect_version(&self, probe: &VersionProbe, outcome: &ProbeOutcome) -> (r: StatusState)
        ensures
            r@ == detected(probe@, outcome@),
    {
        detect_version(probe, outcome)
    }
}

/// The line that reports a package's status.
pub open spec fn status_line(id: SoftwareId, state: StatusView) -> Seq<char> {
    let head = name_of(id) + " ("@ + key_of(id) + ") -> "@;
    match state {
        StatusView::Installed { version: Some(v) } => head + v,
        StatusView::Installed { version: None } => head + "installed"@,
        StatusView::NotInstalled => head + "not installed"@,
        StatusView::ManualCheck(n) => head + "manual check required: "@ + n,
        StatusView::Unknown(n) => head + "unknown: "@ + n,
    }
}

/// The line that reports a package's status.
pub fn summarize_status(report: &StatusReport) -> (r: String)
    ensures
        r@ == status_line(report.id, report.state@),
{
    let mut r = String::from_str(report.id.name());
    r.append(" (");
    r.append(report.id.key());
    r.append(") -> ");
    match &report.state {
        StatusState::Installed { version: Some(v) } => r.append(v.as_str()),
        StatusState::Installed { version: None } => r.append("installed"),
        StatusState::NotInstalled => r.append("not installed"),
        StatusState::ManualCheck(n) => {
            r.append("manual check required: ");
            r.append(n.as_str());
        },
        StatusState::Unknown(n) => {
            r.append("unknown: ");
            r.append(n.as_str());
        },
    }
    proof {
        assert(r@ =~= status_line(report.id, report.state@));
    }
    r
}

impl SoftwareManager {
    /// The request that detects a package's status.
    pub fn status_request(&self, id: SoftwareId) -> (r: ProbeRequest)
        ensures
            r@ == request_of(probe_of(id)),
    {
        id.version_probe().request()
    }

    /// A package's status, given what happened when its request ran.
    pub fn status(&self, id: SoftwareId, outcome: &ProbeOutcome) -> (r: StatusReport)
        ensures
            r.id == id,
            r.state@ == detected(probe_of(id), outcome@),
    {
        let probe = id.version_probe();
        StatusReport { id, state: detect_version(&probe, outcome) }
    }

    /// The status of every package, in declaration order, given what
    /// happened when each one's request ran.
    pub fn status_all(&self, outcomes: &Vec<ProbeOutcome>) -> (r: Vec<StatusReport>)
        requires
            outcomes@.len() == SOFTWARE_COUNT,
        ensures
            r@.len() == SOFTWARE_COUNT,
            forall|i: int|
                0 <= i < SOFTWARE_COUNT ==> (#[trigger] r@[i]).id == id_at(i) && r@[i].state@
                    == detected(probe_of(id_at(i)), outcomes@[i]@),
    {
        let mut r: Vec<StatusReport> = Vec::new();
        let mut i: usize = 0;
        while i < SOFTWARE_COUNT
            invariant
                i <= SOFTWARE_COUNT,
                outcomes@.len() == SOFTWARE_COUNT,
                r@.len() == i,
                forall|j: int|
                    0 <= j < i ==> (#[trigger] r@[j]).id == id_at(j) && r@[j].state@ == detected(
                        probe_of(id_at(j)),
                        outcomes@[j]@,
                    ),
            decreases SOFTWARE_COUNT - i,
        {
            let id = SoftwareId::from_index(i);
            r.push(self.status(id, &outcomes[i]));
            i += 1;
        }
        r
    }
}

} // verus!
