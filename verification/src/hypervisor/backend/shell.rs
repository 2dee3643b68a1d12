//! The interactive guest shell shown by the native engine once the guest OS
//! is installed: a line editor, a fixed table of command responses and a
//! scroll-back of at most fourteen lines.
use vstd::prelude::*;
use crate::util::text::{push_str, str_eq, str_starts_with, starts_with, suffix_from, trim, trim_string};

verus! {

/// Most lines kept in the scroll-back after a command.
pub const SHELL_HISTORY_LINES: usize = 14;

/// Interactive guest shell state.
pub struct GuestShellState {
    pub current_input: String,
    pub history_lines: Vec<String>,
    pub step_counter: u64,
    pub is_installed: bool,
}

/// The characters of each line.
pub open spec fn lines_view(v: Seq<String>) -> Seq<Seq<char>> {
    v.map_values(|s: String| s@)
}

/// The echo of a command line.
pub open spec fn prompt_line(cmd: Seq<char>) -> Seq<char> {
    "root@novavm:~# "@ + cmd
}

pub open spec fn is_enter_key(key: Seq<char>) -> bool {
    key == "Enter"@ || key == "\r"@ || key == "\n"@
}

pub open spec fn is_backspace_key(key: Seq<char>) -> bool {
    key == "Backspace"@ || key == "\x08"@
}

/// A key that is one ASCII character (one byte in UTF-8).
pub open spec fn is_typed_char(key: Seq<char>) -> bool {
    key.len() == 1 && (key[0] as u32) < 0x80
}

/// Commands that wipe the scroll-back.
pub open spec fn clears_history(cmd: Seq<char>) -> bool {
    cmd == "clear"@ || cmd == "cls"@ || cmd == "reset"@
}

/// Commands that send the guest back to the installer.
pub open spec fn restarts_installer(cmd: Seq<char>) -> bool {
    cmd == "install"@ || cmd == "setup"@ || cmd == "reboot"@ || cmd == "shutdown -r now"@
}

/// The lines a command prints after its echo.
pub open spec fn shell_response(cmd: Seq<char>) -> Seq<Seq<char>> {
    if cmd == "help"@ || cmd == "?"@ {
        seq![
            "NovaOS 1.0 LTS -- Available Commands:"@,
            "  System:   uname  whoami  hostname  uptime  date  reboot"@,
            "  Files:    ls  cat  echo  pwd"@,
            "  Monitor:  top  htop  free  df  ps  neofetch"@,
            "  Network:  ip  ping  ifconfig"@,
            "  NovaVM:   install  nova-info  vmstat  clear"@,
        ]
    } else if cmd == "install"@ || cmd == "setup"@ {
        seq!["Re-starting NovaVM Automated OS Installer..."@]
    } else if cmd == "ls"@ || cmd == "ls -la"@ || cmd == "ls -l"@ || cmd == "dir"@ {
        seq![
            "total 48"@,
            "drwxr-xr-x 12 root root 4096 Aug  8 2026 bin"@,
            "drwxr-xr-x  3 root root 4096 Aug  8 2026 boot"@,
            "drwxr-xr-x 87 root root 4096 Aug  8 2026 etc"@,
            "drwxr-xr-x  3 root root 4096 Aug  8 2026 home"@,
            "drwxr-xr-x  2 root root 4096 Aug  8 2026 root"@,
        ]
    } else if cmd == "top"@ || cmd == "htop"@ {
        seq![
            "top - 19:59:08 up 0:03,  1 user,  load avg: 0.12 0.08 0.03"@,
            "Tasks:  87 total,   1 running,  86 sleeping"@,
            "%Cpu(s):  2.1 us,  0.8 sy, 97.0 id"@,
            "MiB Mem :  4096.0 total,  3712.4 free,   312.2 used"@,
        ]
    } else if cmd == "free"@ || cmd == "free -h"@ {
        seq![
            "               total        used        free"@,
            "Mem:           4.0Gi       312Mi       3.6Gi"@,
            "Swap:          2.0Gi          0B       2.0Gi"@,
        ]
    } else if cmd == "df"@ || cmd == "df -h"@ {
        seq![
            "Filesystem      Size  Used Avail Use% Mounted on"@,
            "/dev/vda1        59G  3.2G   53G   6% /"@,
            "tmpfs           2.0G     0  2.0G   0% /dev/shm"@,
        ]
    } else if cmd == "ps"@ || cmd == "ps aux"@ {
        seq![
            "USER   PID %CPU %MEM VSZ   RSS  COMMAND"@,
            "root     1  0.0  0.1  16968  6888 /sbin/init"@,
            "root   312  0.0  0.0   7164  2448 /bin/bash"@,
        ]
    } else if cmd == "uname"@ || cmd == "uname -a"@ || cmd == "uname -r"@ {
        seq!["Linux novavm-guest 6.6.0-novavm #1 SMP x86_64 GNU/Linux"@]
    } else if cmd == "whoami"@ || cmd == "id"@ {
        seq!["root  uid=0(root) gid=0(root)"@]
    } else if cmd == "hostname"@ {
        seq!["novavm-guest"@]
    } else if cmd == "uptime"@ {
        seq![" 19:59:08 up 3 min,  1 user,  load avg: 0.12"@]
    } else if cmd == "date"@ {
        seq!["Sat Aug  8 19:59:08 UTC 2026"@]
    } else if cmd == "pwd"@ {
        seq!["/root"@]
    } else if clears_history(cmd) {
        seq![]
    } else if cmd == "ping"@ || cmd == "ping google.com"@ || cmd == "ping -c 4 google.com"@ {
        seq![
            "PING google.com (142.250.190.46) 56(84) bytes of data."@,
            "64 bytes from lga34s23-in-f14.1e100.net: icmp_seq=1 time=12.4 ms"@,
            "64 bytes from lga34s23-in-f14.1e100.net: icmp_seq=2 time=11.8 ms"@,
            "--- google.com: 3 packets, 0% packet loss, avg 12.1 ms ---"@,
        ]
    } else if cmd == "ip a"@ || cmd == "ip addr"@ || cmd == "ifconfig"@ {
        seq![
            "1: lo: <LOOPBACK,UP>  inet 127.0.0.1/8"@,
            "2: eth0: <BROADCAST,UP>  inet 192.168.1.100/24"@,
        ]
    } else if cmd == "nova-info"@ || cmd == "vmstat"@ {
        seq![
            "NovaVM Guest Information:"@,
            "  Engine: Windows Hypervisor Platform (WHP)"@,
            "  BIOS:   NovaVM Workstation BIOS v2.0"@,
            "  Dev:    Vikash Kumar | vikukumar.github.io"@,
        ]
    } else if cmd == "neofetch"@ || cmd == "screenfetch"@ {
        seq![
            "    OS: NovaOS 1.0 LTS x86_64"@,
            "    Kernel: 6.6.0-novavm"@,
            "    Hypervisor: NovaVM WHP 2.0"@,
            "    CPU: Intel Xeon Virtual"@,
            "    Memory: 312MiB / 4096MiB"@,
        ]
    } else if cmd == "reboot"@ || cmd == "shutdown -r now"@ {
        seq!["Broadcast: System going down for reboot NOW!"@]
    } else if starts_with(cmd, "echo "@) {
        seq![cmd.subrange(5, cmd.len() as int)]
    } else if starts_with(cmd, "cat "@) {
        seq!["cat: "@ + cmd.subrange(4, cmd.len() as int) + ": No such file or directory"@]
    } else if cmd.len() == 0 {
        seq![]
    } else {
        seq!["bash: "@ + cmd + ": command not found"@]
    }
}

/// The last `n` lines of `h`.
pub open spec fn keep_last(h: Seq<Seq<char>>, n: nat) -> Seq<Seq<char>> {
    if h.len() > n {
        h.subrange(h.len() - n, h.len() as int)
    } else {
        h
    }
}

/// The scroll-back after Enter is pressed on `input`.
pub open spec fn history_after_enter(h: Seq<Seq<char>>, input: Seq<char>) -> Seq<Seq<char>> {
    let cmd = trim(input);
    if clears_history(cmd) {
        seq![]
    } else {
        keep_last(h.push(prompt_line(cmd)) + shell_response(cmd), SHELL_HISTORY_LINES as nat)
    }
}

/// Calls `String::pop`: removes the last character, if there is one.
#[verifier::external_body]
fn pop_char(s: &mut String) -> (c: Option<char>)
    ensures
        old(s)@.len() == 0 ==> c is None && final(s)@ == old(s)@,
        old(s)@.len() > 0 ==> c == Some(old(s)@.last()) && final(s)@ == old(s)@.drop_last(),
{
    s.pop()
}

fn lines1(a: &str) -> (r: Vec<String>)
    ensures
        lines_view(r@) == seq![a@],
{
    let mut v: Vec<String> = Vec::new();
    v.push(String::from_str(a));
    assert(lines_view(v@) =~= seq![a@]);
    v
}

fn lines2(a: &str, b: &str) -> (r: Vec<String>)
    ensures
        lines_view(r@) == seq![a@, b@],
{
    let mut v: Vec<String> = Vec::new();
    v.push(String::from_str(a));
    v.push(String::from_str(b));
    assert(lines_view(v@) =~= seq![a@, b@]);
    v
}

fn lines3(a: &str, b: &str, c: &str) -> (r: Vec<String>)
    ensures
        lines_view(r@) == seq![a@, b@, c@],
{
    let mut v: Vec<String> = Vec::new();
    v.push(String::from_str(a));
    v.push(String::from_str(b));
    v.push(String::from_str(c));
    assert(lines_view(v@) =~= seq![a@, b@, c@]);
    v
}

fn lines4(a: &str, b: &str, c: &str, d: &str) -> (r: Vec<String>)
    ensures
        lines_view(r@) == seq![a@, b@, c@, d@],
{
    let mut v: Vec<String> = Vec::new();
    v.push(String::from_str(a));
    v.push(String::from_str(b));
    v.push(String::from_str(c));
    v.push(String::from_str(d));
    assert(lines_view(v@) =~= seq![a@, b@, c@, d@]);
    v
}

fn lines5(a: &str, b: &str, c: &str, d: &str, e: &str) -> (r: Vec<String>)
    ensures
        lines_view(r@) == seq![a@, b@, c@, d@, e@],
{
    let mut v: Vec<String> = Vec::new();
    v.push(String::from_str(a));
    v.push(String::from_str(b));
    v.push(String::from_str(c));
    v.push(String::from_str(d));
    v.push(String::from_str(e));
    assert(lines_view(v@) =~= seq![a@, b@, c@, d@, e@]);
    v
}

fn lines6(a: &str, b: &str, c: &str, d: &str, e: &str, f: &str) -> (r: Vec<String>)
    ensures
        lines_view(r@) == seq![a@, b@, c@, d@, e@, f@],
{
    let mut v: Vec<String> = Vec::new();
    v.push(String::from_str(a));
    v.push(String::from_str(b));
    v.push(String::from_str(c));
    v.push(String::from_str(d));
    v.push(String::from_str(e));
    v.push(String::from_str(f));
    assert(lines_view(v@) =~= seq![a@, b@, c@, d@, e@, f@]);
    v
}

/// `true` when `cmd` is one of `a` or `b`.
fn is_one_of2(cmd: &str, a: &str, b: &str) -> (r: bool)
    ensures
        r == (cmd@ == a@ || cmd@ == b@),
{
    str_eq(cmd, a) || str_eq(cmd, b)
}

/// `true` when `cmd` is one of `a`, `b` or `c`.
fn is_one_of3(cmd: &str, a: &str, b: &str, c: &str) -> (r: bool)
    ensures
        r == (cmd@ == a@ || cmd@ == b@ || cmd@ == c@),
{
    str_eq(cmd, a) || str_eq(cmd, b) || str_eq(cmd, c)
}

/// The lines printed by the guest shell for the (trimmed) command `cmd`.
pub fn shell_response_lines(cmd: &str) -> (r: Vec<String>)
    ensures
        lines_view(r@) == shell_response(cmd@),
{
    if is_one_of2(cmd, "help", "?") {
        lines6(
            "NovaOS 1.0 LTS -- Available Commands:",
            "  System:   uname  whoami  hostname  uptime  date  reboot",
            "  Files:    ls  cat  echo  pwd",
            "  Monitor:  top  htop  free  df  ps  neofetch",
            "  Network:  ip  ping  ifconfig",
            "  NovaVM:   install  nova-info  vmstat  clear",
        )
    } else if is_one_of2(cmd, "install", "setup") {
        lines1("Re-starting NovaVM Automated OS Installer...")
    } else if is_one_of2(cmd, "ls", "ls -la") || is_one_of2(cmd, "ls -l", "dir") {
        lines6(
            "total 48",
            "drwxr-xr-x 12 root root 4096 Aug  8 2026 bin",
            "drwxr-xr-x  3 root root 4096 Aug  8 2026 boot",
            "drwxr-xr-x 87 root root 4096 Aug  8 2026 etc",
            "drwxr-xr-x  3 root root 4096 Aug  8 2026 home",
            "drwxr-xr-x  2 root root 4096 Aug  8 2026 root",
        )
    } else if is_one_of2(cmd, "top", "htop") {
        lines4(
            "top - 19:59:08 up 0:03,  1 user,  load avg: 0.12 0.08 0.03",
            "Tasks:  87 total,   1 running,  86 sleeping",
            "%Cpu(s):  2.1 us,  0.8 sy, 97.0 id",
            "MiB Mem :  4096.0 total,  3712.4 free,   312.2 used",
        )
    } else if is_one_of2(cmd, "free", "free -h") {
        lines3(
            "               total        used        free",
            "Mem:           4.0Gi       312Mi       3.6Gi",
            "Swap:          2.0Gi          0B       2.0Gi",
        )
    } else if is_one_of2(cmd, "df", "df -h") {
        lines3(
            "Filesystem      Size  Used Avail Use% Mounted on",
            "/dev/vda1        59G  3.2G   53G   6% /",
            "tmpfs           2.0G     0  2.0G   0% /dev/shm",
        )
    } else if is_one_of2(cmd, "ps", "ps aux") {
        lines3(
            "USER   PID %CPU %MEM VSZ   RSS  COMMAND",
            "root     1  0.0  0.1  16968  6888 /sbin/init",
            "root   312  0.0  0.0   7164  2448 /bin/bash",
        )
    } else if is_one_of3(cmd, "uname", "uname -a", "uname -r") {
        lines1("Linux novavm-guest 6.6.0-novavm #1 SMP x86_64 GNU/Linux")
    } else if is_one_of2(cmd, "whoami", "id") {
        lines1("root  uid=0(root) gid=0(root)")
    } else if str_eq(cmd, "hostname") {
        lines1("novavm-guest")
    } else if str_eq(cmd, "uptime") {
        lines1(" 19:59:08 up 3 min,  1 user,  load avg: 0.12")
    } else if str_eq(cmd, "date") {
        lines1("Sat Aug  8 19:59:08 UTC 2026")
    } else if str_eq(cmd, "pwd") {
        lines1("/root")
    } else if is_one_of3(cmd, "clear", "cls", "reset") {
        let v: Vec<String> = Vec::new();
        assert(lines_view(v@) =~= seq![]);
        v
    } else if is_one_of3(cmd, "ping", "ping google.com", "ping -c 4 google.com") {
        lines4(
            "PING google.com (142.250.190.46) 56(84) bytes of data.",
            "64 bytes from lga34s23-in-f14.1e100.net: icmp_seq=1 time=12.4 ms",
            "64 bytes from lga34s23-in-f14.1e100.net: icmp_seq=2 time=11.8 ms",
            "--- google.com: 3 packets, 0% packet loss, avg 12.1 ms ---",
        )
    } else if is_one_of3(cmd, "ip a", "ip addr", "ifconfig") {
        lines2(
            "1: lo: <LOOPBACK,UP>  inet 127.0.0.1/8",
            "2: eth0: <BROADCAST,UP>  inet 192.168.1.100/24",
        )
    } else if is_one_of2(cmd, "nova-info", "vmstat") {
        lines4(
            "NovaVM Guest Information:",
            "  Engine: Windows Hypervisor Platform (WHP)",
            "  BIOS:   NovaVM Workstation BIOS v2.0",
            "  Dev:    Vikash Kumar | vikukumar.github.io",
        )
    } else if is_one_of2(cmd, "neofetch", "screenfetch") {
        lines5(
            "    OS: NovaOS 1.0 LTS x86_64",
            "    Kernel: 6.6.0-novavm",
            "    Hypervisor: NovaVM WHP 2.0",
            "    CPU: Intel Xeon Virtual",
            "    Memory: 312MiB / 4096MiB",
        )
    } else if is_one_of2(cmd, "reboot", "shutdown -r now") {
        lines1("Broadcast: System going down for reboot NOW!")
    } else if str_starts_with(cmd, "echo ") {
        proof {
            reveal_strlit("echo ");
        }
        let rest = suffix_from(cmd, 5);
        let mut v: Vec<String> = Vec::new();
        v.push(rest);
        assert(lines_view(v@) =~= shell_response(cmd@));
        v
    } else if str_starts_with(cmd, "cat ") {
        proof {
            reveal_strlit("cat ");
        }
        let mut line = String::from_str("cat: ");
        let rest = suffix_from(cmd, 4);
        push_str(&mut line, rest.as_str());
        push_str(&mut line, ": No such file or directory");
        let mut v: Vec<String> = Vec::new();
        v.push(line);
        assert(lines_view(v@) =~= shell_response(cmd@));
        v
    } else if cmd.unicode_len() == 0 {
        let v: Vec<String> = Vec::new();
        assert(lines_view(v@) =~= seq![]);
        v
    } else {
        let mut line = String::from_str("bash: ");
        push_str(&mut line, cmd);
        push_str(&mut line, ": command not found");
        let mut v: Vec<String> = Vec::new();
        v.push(line);
        assert(lines_view(v@) =~= shell_response(cmd@));
        v
    }
}

impl GuestShellState {
    /// The scroll-back as character sequences.
    pub open spec fn history(&self) -> Seq<Seq<char>> {
        lines_view(self.history_lines@)
    }

    /// Apply one key press from the display window.
    ///
    /// Enter runs the trimmed input line, Backspace deletes the last
    /// character, a single ASCII character is appended, anything else is
    /// ignored.
    pub fn send_keyboard_input(&mut self, key: &str)
        ensures
            is_enter_key(key@) ==> {
                let cmd = trim(old(self).current_input@);
                &&& final(self).history() == history_after_enter(old(self).history(), old(self).current_input@)
                &&& final(self).current_input@ == Seq::<char>::empty()
                &&& restarts_installer(cmd) ==> !final(self).is_installed && final(self).step_counter == 0
                &&& !restarts_installer(cmd) ==> final(self).is_installed == old(self).is_installed
                    && final(self).step_counter == old(self).step_counter
            },
            !is_enter_key(key@) ==> {
                &&& final(self).history() == old(self).history()
                &&& final(self).is_installed == old(self).is_installed
                &&& final(self).step_counter == old(self).step_counter
                &&& final(self).current_input@ == if is_backspace_key(key@) {
                    if old(self).current_input@.len() > 0 {
                        old(self).current_input@.drop_last()
                    } else {
                        old(self).current_input@
                    }
                } else if is_typed_char(key@) {
                    old(self).current_input@ + key@
                } else {
                    old(self).current_input@
                }
            },
    {
        if str_eq(key, "Enter") || str_eq(key, "\r") || str_eq(key, "\n") {
            let cmd = trim_string(self.current_input.as_str());
            let mut echo = String::from_str("root@novavm:~# ");
            push_str(&mut echo, cmd.as_str());
            self.current_input = String::new();
            let ghost h0 = self.history();
            let mut resp = shell_response_lines(cmd.as_str());
            if is_one_of3(cmd.as_str(), "clear", "cls", "reset") {
                self.history_lines = Vec::new();
                assert(self.history() =~= seq![]);
            } else {
                self.history_lines.push(echo);
                self.history_lines.append(&mut resp);
                assert(self.history() =~= h0.push(prompt_line(cmd@)) + shell_response(cmd@));
                let n = self.history_lines.len();
                if n > SHELL_HISTORY_LINES {
                    let ghost h1 = self.history();
                    let tail = self.history_lines.split_off(n - SHELL_HISTORY_LINES);
                    self.history_lines = tail;
                    assert(self.history() =~= h1.subrange(n - 14, n as int));
                }
            }
            if is_one_of2(cmd.as_str(), "install", "setup") || is_one_of2(
                cmd.as_str(),
                "reboot",
                "shutdown -r now",
            ) {
                self.is_installed = false;
                self.step_counter = 0;
            }
        } else if str_eq(key, "Backspace") || str_eq(key, "\x08") {
            let _ = pop_char(&mut self.current_input);
        } else if key.unicode_len() == 1 && (key.get_char(0) as u32) < 0x80 {
            push_str(&mut self.current_input, key);
        }
    }
}

impl Default for GuestShellState {
    fn default() -> (s: Self)
        ensures
            s.current_input@ == Seq::<char>::empty(),
            s.history_lines@.len() == 0,
            s.step_counter == 0,
            !s.is_installed,
    {
        GuestShellState {
            current_input: String::new(),
            history_lines: Vec::new(),
            step_counter: 0,
            is_installed: false,
        }
    }
}

} // verus!
