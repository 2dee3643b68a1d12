//! Guest user accounts and script runs: the decisions around the commands
//! the host runs inside the guest. The host runs the commands and reads the
//! files; these functions say what to run and what the outcome means.
use vstd::prelude::*;
use crate::agent::{CreateUserData, GuestUser, ScriptPayload, ScriptResultData, UpdatePasswordData};
use crate::engine::error::joined3;
use crate::util::parse::{
    eq_ignore_ascii_case, lemma_split_nonempty, lines_of, parse_u32, parse_u32_text, split_fields, split_on,
    text_eq_ignore_ascii_case, text_lines, views,
};
use crate::util::text::{lowercase, push_str, str_eq, to_lowercase, trim, trim_string};

verus! {

/// The family of the guest OS.
#[derive(Debug, Clone, Copy, PartialEq, Eq, Structural)]
pub enum GuestOs {
    Windows,
    Posix,
}

/// One account as the Windows local-user query reports it: each field as
/// found in the query's output, when present with the expected type.
#[derive(Debug)]
pub struct LocalAccount {
    pub name: Option<String>,
    pub full_name: Option<String>,
    pub enabled: Option<bool>,
}

/// What the host read to list the guest's accounts.
#[derive(Debug)]
pub enum UserListing {
    /// The text of `/etc/passwd`, if it could be read.
    Posix(Option<String>),
    /// The accounts the Windows query reported, if it ran and its output parsed.
    Windows(Option<Vec<LocalAccount>>),
}

/// An account entry as plain values: name, full name, enabled.
pub open spec fn account_fields(a: LocalAccount) -> (Option<Seq<char>>, Option<Seq<char>>, Option<bool>) {
    (
        match a.name {
            Some(n) => Some(n@),
            None => None,
        },
        match a.full_name {
            Some(f) => Some(f@),
            None => None,
        },
        a.enabled,
    )
}

/// What `serde_json` reads from the text `text` printed by the Windows
/// local-user query: none when it is not JSON; else its entries (each
/// element of an array, or the one value) with the `Name` and `FullName`
/// fields where they are strings and `Enabled` where it is a boolean.
pub uninterp spec fn json_local_accounts(text: Seq<char>) -> Option<Seq<(Option<Seq<char>>, Option<Seq<char>>, Option<bool>)>>;

/// Calls `serde_json::from_str::<serde_json::Value>` on the query's output
/// and picks the three fields of each entry.
#[verifier::external_body]
fn parse_local_accounts(text: &str) -> (r: Option<Vec<LocalAccount>>)
    ensures
        r is None ==> json_local_accounts(text@) is None,
        r matches Some(v) ==> json_local_accounts(text@) == Some(v@.map_values(|a: LocalAccount| account_fields(a))),
{
    let items = match serde_json::from_str::<serde_json::Value>(text) {
        Ok(serde_json::Value::Array(items)) => items,
        Ok(other) => vec![other],
        Err(_) => return None,
    };
    Some(items.iter().map(|item| LocalAccount {
        name: item["Name"].as_str().map(str::to_owned),
        full_name: item["FullName"].as_str().map(str::to_owned),
        enabled: item["Enabled"].as_bool(),
    }).collect())
}

/// The listing of a Windows guest whose local-user query printed
/// `query_output` (none when it could not be run): the entries read from
/// the output as JSON, or none when it is not JSON.
pub fn windows_listing(query_output: Option<&str>) -> (r: UserListing)
    ensures
        r matches UserListing::Windows(accounts) && match query_output {
            None => accounts is None,
            Some(t) => match json_local_accounts(t@) {
                None => accounts is None,
                Some(entries) => accounts matches Some(v)
                    && v@.map_values(|a: LocalAccount| account_fields(a)) == entries,
            },
        },
{
    match query_output {
        None => UserListing::Windows(None),
        Some(t) => UserListing::Windows(parse_local_accounts(t)),
    }
}

/// How a command the host ran ended.
#[derive(Debug)]
pub enum CommandOutcome {
    /// It ran: whether it exited successfully, and its standard error.
    Finished { success: bool, stderr: String },
    /// It could not be started: the error's text.
    LaunchFailed(String),
}

/// `u` has exactly these fields.
pub open spec fn shows(
    u: GuestUser,
    username: Seq<char>,
    full_name: Seq<char>,
    is_admin: bool,
    is_disabled: bool,
    last_login: Option<Seq<char>>,
) -> bool {
    &&& u.username@ == username
    &&& u.full_name@ == full_name
    &&& u.is_admin == is_admin
    &&& u.is_disabled == is_disabled
    &&& match last_login {
        Some(l) => u.last_login matches Some(x) && x@ == l,
        None => u.last_login is None,
    }
}

/// The account a line of `/etc/passwd` describes, as (name, full name,
/// administrator): lines with at least seven `:` fields whose uid (field
/// three, 0 when unreadable) is 0 or at least 1000. The full name is the
/// part of the fifth field before any comma.
pub open spec fn passwd_entry(line: Seq<char>) -> Option<(Seq<char>, Seq<char>, bool)> {
    let parts = split_fields(line, ':');
    if parts.len() >= 7 {
        let uid: u32 = match parse_u32(parts[2]) {
            Some(v) => v,
            None => 0,
        };
        if uid >= 1000 || uid == 0 {
            Some((parts[0], split_fields(parts[4], ',')[0], uid == 0 || parts[0] == "root"@))
        } else {
            None
        }
    } else {
        None
    }
}

/// The accounts described by `lines`, in order.
pub open spec fn passwd_rows(lines: Seq<Seq<char>>) -> Seq<(Seq<char>, Seq<char>, bool)>
    decreases lines.len(),
{
    if lines.len() == 0 {
        Seq::empty()
    } else {
        let init = passwd_rows(lines.drop_last());
        match passwd_entry(lines.last()) {
            Some(row) => init.push(row),
            None => init,
        }
    }
}

/// The accounts listed on a POSIX guest: those of `/etc/passwd`, or `root`
/// alone when there are none or the file could not be read.
pub open spec fn posix_rows(passwd: Option<Seq<char>>) -> Seq<(Seq<char>, Seq<char>, bool)> {
    let rows = match passwd {
        Some(t) => passwd_rows(lines_of(t)),
        None => Seq::empty(),
    };
    if rows.len() == 0 {
        seq![("root"@, "Superuser"@, true)]
    } else {
        rows
    }
}

/// The account a Windows query entry describes, as (name, full name,
/// administrator, disabled); entries without a name are skipped. The full
/// name defaults to the name, and an entry is enabled unless it says not.
pub open spec fn account_row(a: LocalAccount) -> Option<(Seq<char>, Seq<char>, bool, bool)> {
    let name = match a.name {
        Some(n) => n@,
        None => Seq::empty(),
    };
    if name.len() == 0 {
        None
    } else {
        Some((
            name,
            match a.full_name {
                Some(f) => f@,
                None => name,
            },
            eq_ignore_ascii_case(name, "Administrator"@) || eq_ignore_ascii_case(name, "Admin"@),
            match a.enabled {
                Some(e) => !e,
                None => false,
            },
        ))
    }
}

/// The accounts described by `accounts`, in order.
pub open spec fn account_rows(accounts: Seq<LocalAccount>) -> Seq<(Seq<char>, Seq<char>, bool, bool)>
    decreases accounts.len(),
{
    if accounts.len() == 0 {
        Seq::empty()
    } else {
        let init = account_rows(accounts.drop_last());
        match account_row(accounts.last()) {
            Some(row) => init.push(row),
            None => init,
        }
    }
}

/// The result of listing a guest's accounts.
pub open spec fn listed(r: Seq<GuestUser>, listing: UserListing) -> bool {
    match listing {
        UserListing::Posix(text) => {
            let rows = posix_rows(
                match text {
                    Some(t) => Some(t@),
                    None => None,
                },
            );
            &&& r.len() == rows.len()
            &&& forall|i: int| 0 <= i < r.len() ==> #[trigger] shows(r[i], rows[i].0, rows[i].1, rows[i].2, false, None)
        },
        UserListing::Windows(accounts) => {
            let rows = match accounts {
                Some(a) => account_rows(a@),
                None => Seq::empty(),
            };
            if rows.len() == 0 {
                &&& r.len() == 2
                &&& shows(r[0], "Administrator"@, "Built-in Administrator"@, true, false, Some("2026-08-06T08:00:00Z"@))
                &&& shows(r[1], "User"@, "Standard VM User"@, false, false, Some("2026-08-06T07:30:00Z"@))
            } else {
                &&& r.len() == rows.len()
                &&& forall|i: int| 0 <= i < r.len() ==> #[trigger] shows(r[i], rows[i].0, rows[i].1, rows[i].2, rows[i].3, None)
            }
        },
    }
}

/// Listing a guest's accounts always yields at least one account.
pub proof fn law_users_never_empty(r: Seq<GuestUser>, listing: UserListing)
    requires
        listed(r, listing),
    ensures
        r.len() >= 1,
{
}

/// The account a line of `/etc/passwd` describes, if any.
fn read_passwd_line(line: &str) -> (r: Option<GuestUser>)
    ensures
        match passwd_entry(line@) {
            Some(row) => r matches Some(u) && shows(u, row.0, row.1, row.2, false, None),
            None => r is None,
        },
{
    let parts = split_on(line, ':');
    if parts.len() < 7 {
        return None;
    }
    proof {
        assert(views(parts@)[2] == parts@[2]@);
        assert(views(parts@)[0] == parts@[0]@);
        assert(views(parts@)[4] == parts@[4]@);
    }
    let uid: u32 = match parse_u32_text(parts[2].as_str()) {
        Some(v) => v,
        None => 0,
    };
    if !(uid >= 1000 || uid == 0) {
        return None;
    }
    let username = parts[0].clone();
    let names = split_on(parts[4].as_str(), ',');
    proof {
        lemma_split_nonempty(parts@[4]@, ',');
        assert(views(names@)[0] == names@[0]@);
    }
    let full_name = names[0].clone();
    let is_admin = uid == 0 || str_eq(username.as_str(), "root");
    Some(GuestUser { username, full_name, is_admin, is_disabled: false, last_login: None })
}

/// The accounts of a POSIX guest whose `/etc/passwd` holds `passwd`.
fn read_passwd(passwd: &str) -> (r: Vec<GuestUser>)
    ensures
        r.len() == passwd_rows(lines_of(passwd@)).len(),
        forall|i: int| 0 <= i < r.len() ==> #[trigger] shows(r@[i], passwd_rows(lines_of(passwd@))[i].0, passwd_rows(lines_of(passwd@))[i].1, passwd_rows(lines_of(passwd@))[i].2, false, None),
{
    let lines = text_lines(passwd);
    let ghost ls = lines_of(passwd@);
    let mut r: Vec<GuestUser> = Vec::new();
    let mut i: usize = 0;
    while i < lines.len()
        invariant
            i <= lines.len(),
            views(lines@) == ls,
            r.len() == passwd_rows(ls.subrange(0, i as int)).len(),
            forall|j: int| 0 <= j < r.len() ==> #[trigger] shows(r@[j], passwd_rows(ls.subrange(0, i as int))[j].0, passwd_rows(ls.subrange(0, i as int))[j].1, passwd_rows(ls.subrange(0, i as int))[j].2, false, None),
        decreases lines.len() - i,
    {
        let ghost pre = ls.subrange(0, i as int);
        let ghost next = ls.subrange(0, i + 1);
        proof {
            assert(next.drop_last() =~= pre);
            assert(next.last() == lines@[i as int]@);
        }
        match read_passwd_line(lines[i].as_str()) {
            Some(u) => {
                r.push(u);
            },
            None => {},
        }
        i = i + 1;
    }
    proof {
        assert(ls.subrange(0, lines.len() as int) =~= ls);
    }
    r
}

/// The account a Windows query entry describes, if it has a name.
fn read_account(a: &LocalAccount) -> (r: Option<GuestUser>)
    ensures
        match account_row(*a) {
            Some(row) => r matches Some(u) && shows(u, row.0, row.1, row.2, row.3, None),
            None => r is None,
        },
{
    let name = match &a.name {
        Some(n) => n.clone(),
        None => String::new(),
    };
    if name.unicode_len() == 0 {
        return None;
    }
    let full_name = match &a.full_name {
        Some(f) => f.clone(),
        None => name.clone(),
    };
    let is_admin = text_eq_ignore_ascii_case(name.as_str(), "Administrator") || text_eq_ignore_ascii_case(
        name.as_str(),
        "Admin",
    );
    let is_disabled = match a.enabled {
        Some(e) => !e,
        None => false,
    };
    Some(GuestUser { username: name, full_name, is_admin, is_disabled, last_login: None })
}

/// The accounts described by the Windows query entries.
fn read_accounts(accounts: &Vec<LocalAccount>) -> (r: Vec<GuestUser>)
    ensures
        r.len() == account_rows(accounts@).len(),
        forall|i: int| 0 <= i < r.len() ==> #[trigger] shows(r@[i], account_rows(accounts@)[i].0, account_rows(accounts@)[i].1, account_rows(accounts@)[i].2, account_rows(accounts@)[i].3, None),
{
    let mut r: Vec<GuestUser> = Vec::new();
    let mut i: usize = 0;
    while i < accounts.len()
        invariant
            i <= accounts.len(),
            r.len() == account_rows(accounts@.subrange(0, i as int)).len(),
            forall|j: int| 0 <= j < r.len() ==> #[trigger] shows(r@[j], account_rows(accounts@.subrange(0, i as int))[j].0, account_rows(accounts@.subrange(0, i as int))[j].1, account_rows(accounts@.subrange(0, i as int))[j].2, account_rows(accounts@.subrange(0, i as int))[j].3, None),
        decreases accounts.len() - i,
    {
        let ghost pre = accounts@.subrange(0, i as int);
        let ghost next = accounts@.subrange(0, i + 1);
        proof {
            assert(next.drop_last() =~= pre);
            assert(next.last() == accounts@[i as int]);
        }
        match read_account(&accounts[i]) {
            Some(u) => {
                r.push(u);
            },
            None => {},
        }
        i = i + 1;
    }
    proof {
        assert(accounts@.subrange(0, accounts.len() as int) =~= accounts@);
    }
    r
}

/// A user with no last login recorded.
fn user(username: &str, full_name: &str, is_admin: bool, last_login: Option<&str>) -> (u: GuestUser)
    ensures
        shows(
            u,
            username@,
            full_name@,
            is_admin,
            false,
            match last_login {
                Some(l) => Some(l@),
                None => None,
            },
        ),
{
    GuestUser {
        username: String::from_str(username),
        full_name: String::from_str(full_name),
        is_admin,
        is_disabled: false,
        last_login: match last_login {
            Some(l) => Some(String::from_str(l)),
            None => None,
        },
    }
}

/// The user accounts of the guest, from what the host read: on a POSIX
/// guest the accounts of `/etc/passwd` (or `root` alone), on Windows those
/// the local-user query reported (or two built-in defaults).
pub fn list_os_users(listing: &UserListing) -> (r: Vec<GuestUser>)
    ensures
        listed(r@, *listing),
{
    match listing {
        UserListing::Posix(text) => {
            let mut users = match text {
                Some(t) => read_passwd(t.as_str()),
                None => Vec::new(),
            };
            if users.len() == 0 {
                users.push(user("root", "Superuser", true, None));
            }
            users
        },
        UserListing::Windows(accounts) => {
            let mut users = match accounts {
                Some(a) => read_accounts(a),
                None => Vec::new(),
            };
            if users.len() == 0 {
                users.push(user("Administrator", "Built-in Administrator", true, Some("2026-08-06T08:00:00Z")));
                users.push(user("User", "Standard VM User", false, Some("2026-08-06T07:30:00Z")));
            }
            users
        },
    }
}

/// The user that creating `data` yields once the creating command has
/// succeeded; otherwise the command's standard error, or the reason it could
/// not be started.
pub fn create_os_user(data: &CreateUserData, outcome: CommandOutcome) -> (r: Result<GuestUser, String>)
    ensures
        match outcome {
            CommandOutcome::Finished { success, stderr } => if success {
                r matches Ok(u) && shows(u, data.username@, data.full_name@, data.is_admin, false, None)
            } else {
                r matches Err(m) && m@ == stderr@
            },
            CommandOutcome::LaunchFailed(e) => r matches Err(m) && m@ == e@,
        },
{
    match outcome {
        CommandOutcome::Finished { success, stderr } => {
            if success {
                Ok(GuestUser {
                    username: data.username.clone(),
                    full_name: data.full_name.clone(),
                    is_admin: data.is_admin,
                    is_disabled: false,
                    last_login: None,
                })
            } else {
                Err(stderr)
            }
        },
        CommandOutcome::LaunchFailed(e) => Err(e),
    }
}

/// What a password change came to. On Windows it succeeded when `net user`
/// exited successfully; on a POSIX guest when `chpasswd` could be started.
pub fn update_os_user_password(os: GuestOs, outcome: CommandOutcome) -> (r: Result<(), String>)
    ensures
        match os {
            GuestOs::Windows => match outcome {
                CommandOutcome::Finished { success, stderr } => if success {
                    r is Ok
                } else {
                    r matches Err(m) && m@ == stderr@
                },
                CommandOutcome::LaunchFailed(e) => r matches Err(m) && m@ == e@,
            },
            GuestOs::Posix => match outcome {
                CommandOutcome::Finished { .. } => r is Ok,
                CommandOutcome::LaunchFailed(_) => r matches Err(m) && m@ == "Failed to execute chpasswd"@,
            },
        },
{
    match os {
        GuestOs::Windows => match outcome {
            CommandOutcome::Finished { success, stderr } => {
                if success {
                    Ok(())
                } else {
                    Err(stderr)
                }
            },
            CommandOutcome::LaunchFailed(e) => Err(e),
        },
        GuestOs::Posix => match outcome {
            CommandOutcome::Finished { .. } => Ok(()),
            CommandOutcome::LaunchFailed(_) => Err(String::from_str("Failed to execute chpasswd")),
        },
    }
}

/// The `cmd.exe` script that adds the user on Windows.
pub open spec fn add_user_script(u: Seq<char>, p: Seq<char>, f: Seq<char>) -> Seq<char> {
    "net user \""@ + u + "\" \""@ + p + "\" /add /fullname:\""@ + f + "\""@
}

/// The `cmd.exe` script that adds the user on Windows:
/// `net user "<name>" "<password>" /add /fullname:"<full name>"`.
pub fn windows_add_user_script(data: &CreateUserData) -> (r: String)
    ensures
        r@ == add_user_script(data.username@, data.password@, data.full_name@),
{
    let mut s = joined3("net user \"", data.username.as_str(), "\" \"");
    push_str(&mut s, data.password.as_str());
    push_str(&mut s, "\" /add /fullname:\"");
    push_str(&mut s, data.full_name.as_str());
    push_str(&mut s, "\"");
    s
}

/// The `cmd.exe` script that makes `username` an administrator on Windows:
/// `net localgroup Administrators "<name>" /add`.
pub fn windows_admin_group_script(username: &str) -> (r: String)
    ensures
        r@ == "net localgroup Administrators \""@ + username@ + "\" /add"@,
{
    joined3("net localgroup Administrators \"", username, "\" /add")
}

/// The `cmd.exe` script that sets a password on Windows:
/// `net user "<name>" "<password>"`.
pub fn windows_set_password_script(data: &UpdatePasswordData) -> (r: String)
    ensures
        r@ == "net user \""@ + data.username@ + "\" \""@ + data.new_password@ + "\""@,
{
    let mut s = joined3("net user \"", data.username.as_str(), "\" \"");
    push_str(&mut s, data.new_password.as_str());
    push_str(&mut s, "\"");
    s
}

/// The line fed to `chpasswd` on a POSIX guest: `<name>:<password>`.
pub fn chpasswd_line(username: &str, password: &str) -> (r: String)
    ensures
        r@ == username@ + ":"@ + password@,
{
    joined3(username, ":", password)
}

/// The arguments of `useradd` on a POSIX guest: `-m -c <full name> <name>`.
pub fn useradd_args(data: &CreateUserData) -> (r: Vec<String>)
    ensures
        views(r@) == seq!["-m"@, "-c"@, data.full_name@, data.username@],
{
    let mut r: Vec<String> = Vec::new();
    r.push(String::from_str("-m"));
    r.push(String::from_str("-c"));
    r.push(data.full_name.clone());
    r.push(data.username.clone());
    assert(views(r@) =~= seq!["-m"@, "-c"@, data.full_name@, data.username@]);
    r
}

/// The arguments of `usermod` that add `username` to the administrator
/// groups on a POSIX guest: `-aG sudo,wheel <name>`.
pub fn admin_usermod_args(username: &str) -> (r: Vec<String>)
    ensures
        views(r@) == seq!["-aG"@, "sudo,wheel"@, username@],
{
    let mut r: Vec<String> = Vec::new();
    r.push(String::from_str("-aG"));
    r.push(String::from_str("sudo,wheel"));
    r.push(String::from_str(username));
    assert(views(r@) =~= seq!["-aG"@, "sudo,wheel"@, username@]);
    r
}

/// The program and arguments that run a script.
#[derive(Debug)]
pub struct ScriptCommand {
    /// The interpreter name, trimmed and lowercased.
    pub interpreter: String,
    /// The program to start.
    pub program: String,
    /// Its arguments.
    pub args: Vec<String>,
}

/// The program and arguments for interpreter `i` (trimmed and lowercased)
/// running `body`: PowerShell for `powershell`/`ps1`, `cmd.exe` for
/// `cmd`/`bat`, `python3` for `python`/`py`, and `sh` otherwise.
pub open spec fn script_invocation(i: Seq<char>, body: Seq<char>) -> (Seq<char>, Seq<Seq<char>>) {
    if i == "powershell"@ || i == "ps1"@ {
        ("powershell.exe"@, seq!["-NoProfile"@, "-NonInteractive"@, "-ExecutionPolicy"@, "Bypass"@, "-Command"@, body])
    } else if i == "cmd"@ || i == "bat"@ {
        ("cmd.exe"@, seq!["/C"@, body])
    } else if i == "python"@ || i == "py"@ {
        ("python3"@, seq!["-c"@, body])
    } else {
        ("sh"@, seq!["-c"@, body])
    }
}

/// A vector holding `items`.
fn strings(items: &[&str]) -> (r: Vec<String>)
    ensures
        r@.len() == items@.len(),
        forall|i: int| 0 <= i < items@.len() ==> #[trigger] r@[i]@ == items@[i]@,
{
    let mut r: Vec<String> = Vec::new();
    let mut i: usize = 0;
    while i < items.len()
        invariant
            i <= items.len(),
            r@.len() == i,
            forall|j: int| 0 <= j < i ==> #[trigger] r@[j]@ == items@[j]@,
        decreases items.len() - i,
    {
        r.push(String::from_str(items[i]));
        i = i + 1;
    }
    r
}

/// The command that runs `payload`'s script.
pub fn script_command(payload: &ScriptPayload) -> (r: ScriptCommand)
    ensures
        r.interpreter@ == lowercase(trim(payload.interpreter@)),
        (r.program@, views(r.args@)) == script_invocation(r.interpreter@, payload.script_body@),
{
    let trimmed = trim_string(payload.interpreter.as_str());
    let interpreter = to_lowercase(trimmed.as_str());
    let i = interpreter.as_str();
    let body = payload.script_body.clone();
    let (program, mut args) = if str_eq(i, "powershell") || str_eq(i, "ps1") {
        (String::from_str("powershell.exe"), strings(&["-NoProfile", "-NonInteractive", "-ExecutionPolicy", "Bypass", "-Command"]))
    } else if str_eq(i, "cmd") || str_eq(i, "bat") {
        (String::from_str("cmd.exe"), strings(&["/C"]))
    } else if str_eq(i, "python") || str_eq(i, "py") {
        (String::from_str("python3"), strings(&["-c"]))
    } else {
        (String::from_str("sh"), strings(&["-c"]))
    };
    let ghost before = views(args@);
    let ghost bv = body@;
    args.push(body);
    proof {
        assert(views(args@) =~= before.push(bv));
        assert(views(args@) =~= script_invocation(interpreter@, payload.script_body@).1);
    }
    ScriptCommand { interpreter, program, args }
}

/// The result of a script that ran: its exit code (-1 when it was ended by
/// a signal), its output and its duration.
pub fn script_finished(code: Option<i32>, stdout: String, stderr: String, duration_ms: u64) -> (r: ScriptResultData)
    ensures
        r.exit_code == match code {
            Some(c) => c,
            None => -1i32,
        },
        r.stdout@ == stdout@,
        r.stderr@ == stderr@,
        r.duration_ms == duration_ms,
{
    ScriptResultData {
        exit_code: match code {
            Some(c) => c,
            None => -1,
        },
        stdout,
        stderr,
        duration_ms,
    }
}

/// The result of a script whose interpreter could not be started.
pub fn script_launch_failed(interpreter: &str, error: &str, duration_ms: u64) -> (r: ScriptResultData)
    ensures
        r.exit_code == -1,
        r.stdout@.len() == 0,
        r.stderr@ == "Failed to launch interpreter '"@ + interpreter@ + "': "@ + error@,
        r.duration_ms == duration_ms,
{
    let mut m = joined3("Failed to launch interpreter '", interpreter, "': ");
    push_str(&mut m, error);
    ScriptResultData { exit_code: -1, stdout: String::new(), stderr: m, duration_ms }
}

} // verus!
