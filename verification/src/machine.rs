//! The product that the manager drives, and the login record written into its data
//! directory.
use vstd::prelude::*;
use vstd::slice::slice_subrange;
use crate::outside::{lower_text, to_lower};
use crate::seq_search::{first_match, lemma_first_match_at, lemma_first_match_none};
use crate::text::{
    first_word, first_word_of, has_infix, split_char, split_on, str_chars, str_contains, string_from_chars, trim, trim_char, trim_end_char,
    trim_end_matches_char, trim_matches_char, trim_spec, views,
};

verus! {

/// The product type.
#[derive(Debug, Clone, Copy, PartialEq, Eq)]
pub enum ProductType {
    TraeSoloCn,
}

/// The login record written into a data directory of the product.
#[derive(Debug, Clone, PartialEq, Eq)]
pub struct TraeLoginInfo {
    pub token: String,
    pub refresh_token: Option<String>,
    pub user_id: String,
    pub email: String,
    pub username: String,
    pub avatar_url: String,
    pub host: String,
    pub region: String,
}

impl ProductType {
    /// The name of the product's data directory.
    pub fn data_dir_name(&self) -> (r: String)
        ensures
            r@ == "TRAE SOLO CN"@,
    {
        "TRAE SOLO CN".to_string()
    }

    /// The name of the product's main process.
    pub fn process_name(&self) -> (r: String)
        ensures
            r@ == "TRAE SOLO CN.exe"@,
    {
        "TRAE SOLO CN.exe".to_string()
    }

    /// The names under which the product's processes run (another product, "Trae
    /// Auto", is not among them).
    pub fn process_names(&self) -> (r: Vec<String>)
        ensures
            views(r@) == product_process_names(),
    {
        let mut v: Vec<String> = Vec::new();
        v.push("TRAE SOLO CN.exe".to_string());
        assert(views(v@) =~= product_process_names());
        v
    }

    /// The file names of the product's main program, looked for when scanning for it.
    pub fn main_exe_candidates(&self) -> (r: Vec<String>)
        ensures
            views(r@) == product_process_names(),
    {
        self.process_names()
    }

    /// The product's name as shown to the user.
    pub fn display_name(&self) -> (r: String)
        ensures
            r@ == "TRAE Work CN"@,
    {
        "TRAE Work CN".to_string()
    }
}

/// The product's process names.
pub open spec fn product_process_names() -> Seq<Seq<char>> {
    seq!["TRAE SOLO CN.exe"@]
}

/// Whether the task list shown for some process name of the product (`outputs[i]` for
/// the `i`-th name) names that process.
pub open spec fn running_in(outputs: Seq<String>) -> bool {
    exists|i: int|
        0 <= i < outputs.len() && i < product_process_names().len() && has_infix(
            #[trigger] outputs[i]@,
            product_process_names()[i],
        )
}

/// Whether the product runs, given the task list output for each of its process names
/// in order.
pub fn is_product_running(product_type: ProductType, outputs: &Vec<String>) -> (r: bool)
    ensures
        r == running_in(outputs@),
{
    let names = product_type.process_names();
    let mut i: usize = 0;
    while i < outputs.len() && i < names.len()
        invariant
            i <= outputs@.len(),
            views(names@) == product_process_names(),
            forall|j: int|
                0 <= j < i ==> !has_infix(#[trigger] outputs@[j]@, product_process_names()[j]),
        decreases outputs@.len() - i,
    {
        assert(views(names@)[i as int] == names@[i as int]@);
        if str_contains(outputs[i].as_str(), names[i].as_str()) {
            return true;
        }
        i = i + 1;
    }
    proof {
        assert forall|j: int|
            0 <= j < outputs@.len() && j < product_process_names().len() implies !has_infix(
            #[trigger] outputs@[j]@,
            product_process_names()[j],
        ) by {
            assert(views(names@).len() == names@.len());
        }
    }
    false
}

/// Milliseconds to wait, in steps of a tenth of a second, for the processes to close
/// after being asked.
pub const GRACEFUL_WAIT_MS: u32 = 800;
/// Milliseconds to wait, in steps of fifty, for the processes to end after being killed.
pub const FORCE_WAIT_MS: u32 = 500;

/// Where closing the product stands; each state awaits one look at whether the
/// product runs.
#[derive(Debug, Clone, Copy, PartialEq, Eq)]
pub enum KillState {
    /// Before anything was done.
    Start,
    /// Asked to close, after waiting the given milliseconds.
    GracefulWait(u32),
    /// Done waiting for the processes to close.
    ForceCheck,
    /// Killed, after waiting the given milliseconds.
    ForceWait(u32),
    /// Done waiting for the processes to end.
    FinalCheck,
    /// Finished.
    Done,
}

/// What to do next while closing the product.
#[derive(Debug, Clone, Copy, PartialEq, Eq)]
pub enum KillAction {
    /// The product did not run: finished.
    NotRunning,
    /// Ask each process of the product to close, then look again.
    CloseGracefully,
    /// Kill each process of the product, then look again.
    ForceKill,
    /// Sleep this many milliseconds, then look again.
    Wait(u32),
    /// Look again at once.
    Recheck,
    /// The product has stopped: finished.
    Stopped,
    /// The product still runs: finished with an error.
    StillRunning,
}

/// How many more looks closing the product can take from a state: one in each check,
/// one per step of each wait.
pub open spec fn looks_left(s: KillState) -> int {
    match s {
        KillState::Start => 21int,
        KillState::GracefulWait(w) => (800 - w) / 100 + 12,
        KillState::ForceCheck => 12int,
        KillState::ForceWait(w) => (500 - w) / 50 + 1,
        KillState::FinalCheck => 1int,
        KillState::Done => 0int,
    }
}

/// Whether a state can occur: the waits count whole steps below their limits.
pub open spec fn kill_state_ok(s: KillState) -> bool {
    match s {
        KillState::GracefulWait(w) => w < 800 && w % 100 == 0,
        KillState::ForceWait(w) => w < 500 && w % 50 == 0,
        KillState::Done => false,
        _ => true,
    }
}

/// One step of closing the product, given whether it runs now. Not running at the
/// start: finished. Running at the start: ask it to close. While waiting for it to
/// close: sleep a tenth of a second at a time while it runs, for at most 800 ms. Then,
/// where it still runs, kill it, and wait again, 50 ms at a time, for at most 500 ms.
/// Finally, it has stopped or it still runs.
pub fn kill_step(state: KillState, running: bool) -> (r: (KillState, KillAction))
    requires
        kill_state_ok(state),
    ensures
        r.1 is NotRunning ==> state is Start && !running,
        r.1 is Stopped ==> state is FinalCheck && !running,
        r.1 is StillRunning ==> state is FinalCheck && running,
        r.1 is CloseGracefully ==> state is Start && running,
        r.1 is ForceKill ==> state is ForceCheck && running,
        r.1 is Wait ==> running,
        (r.1 is NotRunning || r.1 is Stopped || r.1 is StillRunning) <==> r.0 is Done,
        r.0 !is Done ==> kill_state_ok(r.0),
        looks_left(r.0) < looks_left(state),
        match state {
            KillState::Start => if running {
                r == (KillState::GracefulWait(0), KillAction::CloseGracefully)
            } else {
                r == (KillState::Done, KillAction::NotRunning)
            },
            KillState::GracefulWait(w) => if running {
                r.1 == KillAction::Wait(100) && r.0 == if w + 100 < 800 {
                    KillState::GracefulWait((w + 100) as u32)
                } else {
                    KillState::ForceCheck
                }
            } else {
                r == (KillState::ForceCheck, KillAction::Recheck)
            },
            KillState::ForceCheck => if running {
                r == (KillState::ForceWait(0), KillAction::ForceKill)
            } else {
                r == (KillState::ForceWait(0), KillAction::Recheck)
            },
            KillState::ForceWait(w) => if running {
                r.1 == KillAction::Wait(50) && r.0 == if w + 50 < 500 {
                    KillState::ForceWait((w + 50) as u32)
                } else {
                    KillState::FinalCheck
                }
            } else {
                r == (KillState::FinalCheck, KillAction::Recheck)
            },
            KillState::FinalCheck => if running {
                r == (KillState::Done, KillAction::StillRunning)
            } else {
                r == (KillState::Done, KillAction::Stopped)
            },
            KillState::Done => true,
        },
{
    match state {
        KillState::Start => {
            if running {
                (KillState::GracefulWait(0), KillAction::CloseGracefully)
            } else {
                (KillState::Done, KillAction::NotRunning)
            }
        },
        KillState::GracefulWait(w) => {
            if running {
                let next = if w + 100 < GRACEFUL_WAIT_MS {
                    KillState::GracefulWait(w + 100)
                } else {
                    KillState::ForceCheck
                };
                (next, KillAction::Wait(100))
            } else {
                (KillState::ForceCheck, KillAction::Recheck)
            }
        },
        KillState::ForceCheck => {
            if running {
                (KillState::ForceWait(0), KillAction::ForceKill)
            } else {
                (KillState::ForceWait(0), KillAction::Recheck)
            }
        },
        KillState::ForceWait(w) => {
            if running {
                let next = if w + 50 < FORCE_WAIT_MS {
                    KillState::ForceWait(w + 50)
                } else {
                    KillState::FinalCheck
                };
                (next, KillAction::Wait(50))
            } else {
                (KillState::FinalCheck, KillAction::Recheck)
            }
        },
        KillState::FinalCheck => {
            if running {
                (KillState::Done, KillAction::StillRunning)
            } else {
                (KillState::Done, KillAction::Stopped)
            }
        },
        KillState::Done => (KillState::Done, KillAction::Stopped),
    }
}

/// The values of an uninstall entry of the registry that locating the product reads.
#[derive(Debug, Clone, PartialEq, Eq)]
pub struct RegistryEntry {
    pub display_name: String,
    pub install_location: String,
    pub uninstall_string: String,
    pub display_icon: String,
}

/// The places an uninstall entry points to: the install directory, the icon's file
/// and the uninstaller's file, each where the entry names it.
#[derive(Debug, Clone, PartialEq, Eq)]
pub struct RegistryPaths {
    pub install_dir: Option<String>,
    pub icon_path: Option<String>,
    pub uninstall_path: Option<String>,
}

/// Whether an uninstall entry, by its display name in lower case, is the product's: it
/// names neither this manager ("manager") nor "Trae Auto", and it names "TRAE SOLO CN" or
/// "TRAE Work CN" (compared in lower case).
pub open spec fn is_product_entry(display_name: Seq<char>) -> bool {
    let lower = lower_text(display_name);
    &&& !has_infix(lower, "manager"@)
    &&& !has_infix(lower, "trae auto"@)
    &&& (has_infix(lower, lower_text("TRAE SOLO CN"@)) || has_infix(lower, lower_text("TRAE Work CN"@)))
}

/// Whether an uninstall entry is the product's.
pub fn registry_entry_matches(display_name: &str) -> (r: bool)
    ensures
        r == is_product_entry(display_name@),
{
    let lower = to_lower(display_name);
    if str_contains(lower.as_str(), "manager") || str_contains(lower.as_str(), "trae auto") {
        return false;
    }
    let k1 = to_lower("TRAE SOLO CN");
    let k2 = to_lower("TRAE Work CN");
    str_contains(lower.as_str(), k1.as_str()) || str_contains(lower.as_str(), k2.as_str())
}

/// The file an icon value names: the part before the first comma, trimmed, without
/// quotes.
pub open spec fn icon_file(display_icon: Seq<char>) -> Seq<char> {
    trim_char(trim_spec(split_char(display_icon, ',')[0]), '"')
}

/// The file an uninstall command names: the part between its first two quotes, else
/// its first word; trimmed.
pub open spec fn uninstall_file(uninstall_string: Seq<char>) -> Seq<char> {
    let parts = split_char(uninstall_string, '"');
    trim_spec(if parts.len() >= 2 {
        parts[1]
    } else {
        first_word(uninstall_string)
    })
}

/// The places an uninstall entry of the product points to; `None` where the entry is
/// not the product's. The install directory is the install location without trailing
/// backslashes and quotes, where it is set; the icon's file is read where the icon is
/// set; the uninstaller's file where the uninstall command is set and names one.
pub fn registry_entry_paths(entry: &RegistryEntry) -> (r: Option<RegistryPaths>)
    ensures
        r is Some <==> is_product_entry(entry.display_name@),
        r matches Some(p) ==> {
            &&& (entry.install_location@.len() > 0 <==> p.install_dir is Some)
            &&& p.install_dir matches Some(d) ==> d@ == trim_char(
                trim_end_char(entry.install_location@, '\\'),
                '"',
            )
            &&& (entry.display_icon@.len() > 0 <==> p.icon_path is Some)
            &&& p.icon_path matches Some(f) ==> f@ == icon_file(entry.display_icon@)
            &&& (entry.uninstall_string@.len() > 0 && uninstall_file(entry.uninstall_string@).len() > 0
                <==> p.uninstall_path is Some)
            &&& p.uninstall_path matches Some(f) ==> f@ == uninstall_file(entry.uninstall_string@)
        },
{
    if !registry_entry_matches(entry.display_name.as_str()) {
        return None;
    }
    let install_dir = if entry.install_location.as_str().is_empty() {
        None
    } else {
        let t = trim_end_matches_char(entry.install_location.as_str(), '\\');
        Some(trim_matches_char(t.as_str(), '"'))
    };
    let icon_path = if entry.display_icon.as_str().is_empty() {
        None
    } else {
        let parts = split_on(entry.display_icon.as_str(), ',');
        assert(views(parts@)[0] == parts@[0]@);
        let t = trim(parts[0].as_str());
        Some(trim_matches_char(t.as_str(), '"'))
    };
    let uninstall_path = if entry.uninstall_string.as_str().is_empty() {
        None
    } else {
        let parts = split_on(entry.uninstall_string.as_str(), '"');
        let raw = if parts.len() >= 2 {
            assert(views(parts@)[1] == parts@[1]@);
            parts[1].clone()
        } else {
            first_word_of(entry.uninstall_string.as_str())
        };
        let t = trim(raw.as_str());
        if t.as_str().is_empty() {
            None
        } else {
            Some(t)
        }
    };
    Some(RegistryPaths { install_dir, icon_path, uninstall_path })
}

/// Where the product may be installed, tried in order: paths under the local
/// application data directory (`true`) and absolute paths (`false`).
pub open spec fn install_candidates() -> Seq<(bool, Seq<char>)> {
    seq![
        (true, "Programs\\TRAE SOLO CN\\TRAE SOLO CN.exe"@),
        (true, "Programs\\Trae\\TRAE SOLO CN.exe"@),
        (true, "TRAE SOLO CN\\TRAE SOLO CN.exe"@),
        (false, "C:\\Program Files\\TRAE SOLO CN\\TRAE SOLO CN.exe"@),
        (false, "D:\\TRAE SOLO CN\\TRAE SOLO CN.exe"@),
        (false, "E:\\TRAE SOLO CN\\TRAE SOLO CN.exe"@),
    ]
}

/// Where the product may be installed.
pub fn install_path_candidates() -> (r: Vec<(bool, String)>)
    ensures
        r@.len() == install_candidates().len(),
        forall|i: int|
            0 <= i < r@.len() ==> (#[trigger] r@[i]).0 == install_candidates()[i].0 && r@[i].1@
                == install_candidates()[i].1,
{
    let mut r: Vec<(bool, String)> = Vec::new();
    r.push((true, "Programs\\TRAE SOLO CN\\TRAE SOLO CN.exe".to_string()));
    r.push((true, "Programs\\Trae\\TRAE SOLO CN.exe".to_string()));
    r.push((true, "TRAE SOLO CN\\TRAE SOLO CN.exe".to_string()));
    r.push((false, "C:\\Program Files\\TRAE SOLO CN\\TRAE SOLO CN.exe".to_string()));
    r.push((false, "D:\\TRAE SOLO CN\\TRAE SOLO CN.exe".to_string()));
    r.push((false, "E:\\TRAE SOLO CN\\TRAE SOLO CN.exe".to_string()));
    r
}

/// Why a path given for the product's program was refused.
#[derive(Debug, Clone, Copy, PartialEq, Eq)]
pub enum ProductPathError {
    /// Nothing exists at the path.
    Missing,
    /// The path does not name an `.exe` file.
    NotExe,
}

impl ProductPathError {
    /// The message shown to the user.
    pub fn message(&self) -> (r: String)
        ensures
            r@ == match self {
                ProductPathError::Missing => "指定的路径不存在"@,
                ProductPathError::NotExe => "请选择 .exe 文件"@,
            },
    {
        match self {
            ProductPathError::Missing => "指定的路径不存在".to_string(),
            ProductPathError::NotExe => "请选择 .exe 文件".to_string(),
        }
    }
}

/// Whether `p` ends `s`.
pub open spec fn is_suffix(p: Seq<char>, s: Seq<char>) -> bool {
    p.len() <= s.len() && s.skip(s.len() - p.len()) == p
}

/// Whether `s` ends with `p`.
fn ends_with(s: &str, p: &str) -> (r: bool)
    ensures
        r == is_suffix(p@, s@),
{
    let sc = str_chars(s);
    let pc = str_chars(p);
    if pc.len() > sc.len() {
        return false;
    }
    let off: usize = sc.len() - pc.len();
    let mut i: usize = 0;
    while i < pc.len()
        invariant
            sc@ == s@,
            pc@ == p@,
            off + pc@.len() == sc@.len(),
            sc@.len() == sc.len(),
            i <= pc@.len(),
            forall|j: int| 0 <= j < i ==> sc@[off + j] == pc@[j],
        decreases pc@.len() - i,
    {
        if sc[off + i] != pc[i] {
            assert(s@.skip(off as int)[i as int] != p@[i as int]);
            return false;
        }
        i = i + 1;
    }
    assert(s@.skip(off as int) =~= p@);
    true
}

/// Checks a path chosen for the product's program, given whether something exists
/// there: it must exist, and end, in lower case, with ".exe".
pub fn check_product_path(path: &str, exists: bool) -> (r: Result<(), ProductPathError>)
    ensures
        !exists ==> r == Err::<(), ProductPathError>(ProductPathError::Missing),
        exists ==> r == if is_suffix(".exe"@, lower_text(path@)) {
            Ok::<(), ProductPathError>(())
        } else {
            Err(ProductPathError::NotExe)
        },
{
    if !exists {
        return Err(ProductPathError::Missing);
    }
    let lower = to_lower(path);
    if ends_with(lower.as_str(), ".exe") {
        Ok(())
    } else {
        Err(ProductPathError::NotExe)
    }
}

/// The arguments that start the product on its own data directory, with a shared
/// extensions directory where one is given.
pub open spec fn launch_args_spec(data_dir: Seq<char>, extensions_dir: Option<Seq<char>>) -> Seq<Seq<char>> {
    seq!["--user-data-dir"@, data_dir] + match extensions_dir {
        Some(e) => seq!["--extensions-dir"@, e],
        None => Seq::empty(),
    }
}

/// The arguments that start the product on its own data directory.
pub fn product_launch_args(data_dir: &str, extensions_dir: Option<&str>) -> (r: Vec<String>)
    ensures
        views(r@) == launch_args_spec(
            data_dir@,
            match extensions_dir {
                Some(e) => Some(e@),
                None => None,
            },
        ),
{
    let mut v: Vec<String> = Vec::new();
    v.push("--user-data-dir".to_string());
    v.push(data_dir.to_string());
    if let Some(e) = extensions_dir {
        v.push("--extensions-dir".to_string());
        v.push(e.to_string());
    }
    assert(views(v@) =~= launch_args_spec(
        data_dir@,
        match extensions_dir {
            Some(e) => Some(e@),
            None => None,
        },
    ));
    v
}

/// A line as `str::lines` gives it: without a final carriage return.
pub open spec fn line_text(piece: Seq<char>) -> Seq<char> {
    if piece.len() > 0 && piece.last() == '\r' {
        piece.drop_last()
    } else {
        piece
    }
}

/// Whether a line of `ioreg` output names the platform UUID and has a fourth
/// quote-separated part.
pub open spec fn names_platform_uuid() -> spec_fn(Seq<char>) -> bool {
    |piece: Seq<char>| {
        let line = line_text(piece);
        has_infix(line, "IOPlatformUUID"@) && split_char(line, '"').len() >= 4
    }
}

/// The platform UUID that `ioreg -rd1 -c IOPlatformExpertDevice` prints: the fourth
/// quote-separated part of the first line that names `IOPlatformUUID` and has one.
pub open spec fn platform_uuid_spec(output: Seq<char>) -> Option<Seq<char>> {
    let lines = split_char(output, '\n');
    match first_match(lines, names_platform_uuid()) {
        Some(i) => Some(split_char(line_text(lines[i]), '"')[3]),
        None => None,
    }
}

/// Reads the platform UUID from the output of `ioreg`.
pub fn platform_uuid(output: &str) -> (r: Option<String>)
    ensures
        match r {
            Some(u) => platform_uuid_spec(output@) == Some(u@),
            None => platform_uuid_spec(output@) is None,
        },
{
    let lines = split_on(output, '\n');
    let mut i: usize = 0;
    while i < lines.len()
        invariant
            i <= lines@.len(),
            views(lines@) == split_char(output@, '\n'),
            forall|j: int| 0 <= j < i ==> !names_platform_uuid()(#[trigger] views(lines@)[j]),
        decreases lines@.len() - i,
    {
        let piece = &lines[i];
        assert(views(lines@)[i as int] == piece@);
        let is_cr = ends_with(piece.as_str(), "\r");
        proof {
            reveal_strlit("\r");
            assert("\r"@ =~= seq!['\r']);
            if is_cr {
                assert(piece@.skip(piece@.len() - 1)[0] == piece@.last());
            } else if piece@.len() > 0 && piece@.last() == '\r' {
                assert(piece@.skip(piece@.len() - 1) =~= "\r"@);
            }
        }
        let line = if is_cr {
            let cs = str_chars(piece.as_str());
            string_from_chars(slice_subrange(cs.as_slice(), 0, cs.len() - 1))
        } else {
            piece.clone()
        };
        assert(line@ =~= line_text(piece@));
        if str_contains(line.as_str(), "IOPlatformUUID") {
            let parts = split_on(line.as_str(), '"');
            if parts.len() >= 4 {
                assert(views(parts@)[3] == parts@[3]@);
                proof {
                    lemma_first_match_at(views(lines@), names_platform_uuid(), i as int);
                }
                return Some(parts[3].clone());
            }
        }
        i = i + 1;
    }
    proof {
        lemma_first_match_none(views(lines@), names_platform_uuid());
    }
    None
}

/// Whether a character is a lowercase hexadecimal digit.
pub open spec fn is_lower_hex(c: char) -> bool {
    ('0' <= c && c <= '9') || ('a' <= c && c <= 'f')
}

/// Whether a text is a version-4 UUID in hyphenated lowercase form: 36 characters,
/// hyphens at positions 8, 13, 18 and 23, lowercase hexadecimal digits elsewhere, the
/// version digit `4` at position 14 and the variant digit `8`, `9`, `a` or `b` at
/// position 19.
pub open spec fn is_uuid_v4_text(s: Seq<char>) -> bool {
    &&& s.len() == 36
    &&& forall|i: int|
        0 <= i < 36 ==> if i == 8 || i == 13 || i == 18 || i == 23 {
            #[trigger] s[i] == '-'
        } else {
            is_lower_hex(s[i])
        }
    &&& s[14] == '4'
    &&& (s[19] == '8' || s[19] == '9' || s[19] == 'a' || s[19] == 'b')
}

/// A fresh machine id: calls `uuid::Uuid::new_v4`, which takes 128 random bits and sets
/// the version (4) and variant (RFC 4122) bits, and writes the id in its hyphenated
/// lowercase form (`Display`). The random digits are not stated.
#[verifier::external_body]
pub fn generate_machine_guid() -> (r: String)
    ensures
        is_uuid_v4_text(r@),
{
    uuid::Uuid::new_v4().to_string()
}

} // verus!
