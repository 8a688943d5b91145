use vstd::prelude::*;

use crate::text::{chars_of, contains_chars, contains_text};

verus! {

/// Number of rows of the keyword table.
pub const KEYWORD_ROWS: usize = 36;

/// Row `i` of the keyword table: the keywords that select a command, and the
/// command. Rows are tried in order; the last row stands for every index from
/// the last one on.
pub open spec fn keyword_row(i: usize) -> (Seq<Seq<char>>, Seq<char>) {
    match i {
        0 => (seq!["disk"@, "space"@, "usage"@, "storage"@], "df -h"@),
        1 => (seq!["memory"@, "ram"@, "mem"@, "usage"@], "free -h"@),
        2 => (seq!["ip"@, "address"@, "my ip"@], "curl ifconfig.me"@),
        3 => (seq!["process"@, "running"@, "ps"@], "ps aux"@),
        4 => (seq!["port"@, "listening"@, "open port"@], "ss -tlnp"@),
        5 => (seq!["network"@, "connection"@, "netstat"@], "ss -tunap"@),
        6 => (seq!["file"@, "find"@, "search file"@], "find . -name "@),
        7 => (seq!["docker"@, "container"@, "images"@], "docker ps"@),
        8 => (seq!["git"@, "status"@, "repo"@], "git status"@),
        9 => (seq!["log"@, "logs"@, "tail"@], "tail -f /var/log/syslog"@),
        10 => (seq!["cpu"@, "processor"@, "top"@], "top -bn1 | head -20"@),
        11 => (seq!["who"@, "users"@, "logged"@], "who"@),
        12 => (seq!["uptime"@, "load"@], "uptime"@),
        13 => (seq!["uname"@, "kernel"@, "system info"@], "uname -a"@),
        14 => (seq!["ping"@, "test network"@], "ping -c 4 google.com"@),
        15 => (seq!["curl"@, "download"@, "fetch"@], "curl -sL "@),
        16 => (seq!["ls"@, "list"@, "dir"@, "directory"@], "ls -lah"@),
        17 => (seq!["cat"@, "read"@, "show"@, "view"@], "cat "@),
        18 => (seq!["grep"@, "search"@, "find text"@], "grep -r "@),
        19 => (seq!["chmod"@, "permission"@, "permissions"@], "chmod "@),
        20 => (seq!["kill"@, "stop"@, "terminate"@], "kill "@),
        21 => (seq!["ssh"@, "remote"@, "connect"@], "ssh "@),
        22 => (seq!["scp"@, "copy remote"@], "scp "@),
        23 => (seq!["tar"@, "archive"@, "compress"@, "zip"@], "tar czf "@),
        24 => (seq!["sudo"@, "admin"@, "root"@], "sudo "@),
        25 => (seq!["apt"@, "install"@, "package"@], "apt install "@),
        26 => (seq!["npm"@, "node"@, "package"@], "npm install "@),
        27 => (seq!["python"@, "pip"@, "python3"@], "python3 "@),
        28 => (seq!["make"@, "build"@, "compile"@], "make"@),
        29 => (seq!["systemctl"@, "service"@, "daemon"@], "systemctl status "@),
        30 => (seq!["cron"@, "schedule"@, "timer"@], "crontab -l"@),
        31 => (seq!["env"@, "environment"@, "variable"@], "env | grep "@),
        32 => (seq!["password"@, "passwd"@, "change password"@], "passwd"@),
        33 => (seq!["firewall"@, "iptables"@, "ufw"@], "ufw status"@),
        34 => (seq!["mount"@, "drive"@, "disk"@], "mount | column -t"@),
        _ => (seq!["df"@, "disk free"@], "df -h"@),
    }
}

/// Whether some keyword of row `i` occurs in `text`.
pub open spec fn row_matches(text: Seq<char>, i: usize) -> bool {
    exists|j: int| 0 <= j < keyword_row(i).0.len() && contains_text(text, keyword_row(i).0[j])
}

/// The first row, from row `i` on, with a keyword that occurs in `text`.
pub open spec fn first_matching_row(text: Seq<char>, i: int) -> Option<int>
    decreases KEYWORD_ROWS - i,
{
    if i < 0 || i >= KEYWORD_ROWS {
        None
    } else if row_matches(text, i as usize) {
        Some(i)
    } else {
        first_matching_row(text, i + 1)
    }
}

/// The reply for a text that no keyword matches.
pub open spec fn unknown_intent_reply(text: Seq<char>) -> Seq<char> {
    "echo 'Unknown intent: "@ + text + "'"@
}

/// The command that the keyword fallback gives for a lower-cased intent.
pub open spec fn keyword_command(text: Seq<char>) -> Seq<char> {
    match first_matching_row(text, 0) {
        Some(i) => keyword_row(i as usize).1,
        None => unknown_intent_reply(text),
    }
}

fn keyword_row_exec(i: usize) -> (row: (Vec<&'static str>, &'static str))
    requires
        i < KEYWORD_ROWS,
    ensures
        row.0@.len() == keyword_row(i).0.len(),
        forall|j: int| 0 <= j < row.0@.len() ==> #[trigger] row.0@[j]@ == keyword_row(i).0[j],
        row.1@ == keyword_row(i).1,
{
    match i {
        0 => (vec!["disk", "space", "usage", "storage"], "df -h"),
        1 => (vec!["memory", "ram", "mem", "usage"], "free -h"),
        2 => (vec!["ip", "address", "my ip"], "curl ifconfig.me"),
        3 => (vec!["process", "running", "ps"], "ps aux"),
        4 => (vec!["port", "listening", "open port"], "ss -tlnp"),
        5 => (vec!["network", "connection", "netstat"], "ss -tunap"),
        6 => (vec!["file", "find", "search file"], "find . -name "),
        7 => (vec!["docker", "container", "images"], "docker ps"),
        8 => (vec!["git", "status", "repo"], "git status"),
        9 => (vec!["log", "logs", "tail"], "tail -f /var/log/syslog"),
        10 => (vec!["cpu", "processor", "top"], "top -bn1 | head -20"),
        11 => (vec!["who", "users", "logged"], "who"),
        12 => (vec!["uptime", "load"], "uptime"),
        13 => (vec!["uname", "kernel", "system info"], "uname -a"),
        14 => (vec!["ping", "test network"], "ping -c 4 google.com"),
        15 => (vec!["curl", "download", "fetch"], "curl -sL "),
        16 => (vec!["ls", "list", "dir", "directory"], "ls -lah"),
        17 => (vec!["cat", "read", "show", "view"], "cat "),
        18 => (vec!["grep", "search", "find text"], "grep -r "),
        19 => (vec!["chmod", "permission", "permissions"], "chmod "),
        20 => (vec!["kill", "stop", "terminate"], "kill "),
        21 => (vec!["ssh", "remote", "connect"], "ssh "),
        22 => (vec!["scp", "copy remote"], "scp "),
        23 => (vec!["tar", "archive", "compress", "zip"], "tar czf "),
        24 => (vec!["sudo", "admin", "root"], "sudo "),
        25 => (vec!["apt", "install", "package"], "apt install "),
        26 => (vec!["npm", "node", "package"], "npm install "),
        27 => (vec!["python", "pip", "python3"], "python3 "),
        28 => (vec!["make", "build", "compile"], "make"),
        29 => (vec!["systemctl", "service", "daemon"], "systemctl status "),
        30 => (vec!["cron", "schedule", "timer"], "crontab -l"),
        31 => (vec!["env", "environment", "variable"], "env | grep "),
        32 => (vec!["password", "passwd", "change password"], "passwd"),
        33 => (vec!["firewall", "iptables", "ufw"], "ufw status"),
        34 => (vec!["mount", "drive", "disk"], "mount | column -t"),
        _ => (vec!["df", "disk free"], "df -h"),
    }
}

/// Keyword-based command fallback of gate 3: the command of the first table
/// row with a keyword that occurs in the (lower-cased) intent, or an `echo`
/// that reports the intent as unknown.
pub fn keyword_fallback(intent_lower: &str) -> (command: String)
    ensures
        command@ == keyword_command(intent_lower@),
{
    let text = chars_of(intent_lower);
    let mut i: usize = 0;
    while i < KEYWORD_ROWS
        invariant
            text@ == intent_lower@,
            i <= KEYWORD_ROWS,
            first_matching_row(intent_lower@, 0) == first_matching_row(intent_lower@, i as int),
        decreases KEYWORD_ROWS - i,
    {
        let row = keyword_row_exec(i);
        let keys = row.0;
        let command = row.1;
        let mut j: usize = 0;
        while j < keys.len()
            invariant
                text@ == intent_lower@,
                i < KEYWORD_ROWS,
                first_matching_row(intent_lower@, 0) == first_matching_row(intent_lower@, i as int),
                command@ == keyword_row(i).1,
                keys@.len() == keyword_row(i).0.len(),
                forall|k: int| 0 <= k < keys@.len() ==> #[trigger] keys@[k]@ == keyword_row(i).0[k],
                j <= keys@.len(),
                forall|k: int| 0 <= k < j ==> !contains_text(intent_lower@, keyword_row(i).0[k]),
            decreases keys@.len() - j,
        {
            let key = chars_of(keys[j]);
            if contains_chars(&text, &key) {
                assert(row_matches(intent_lower@, i));
                assert(first_matching_row(intent_lower@, i as int) == Some(i as int));
                return String::from_str(command);
            }
            j = j + 1;
        }
        assert(!row_matches(intent_lower@, i));
        i = i + 1;
    }
    let mut reply = String::from_str("echo 'Unknown intent: ");
    reply.append(intent_lower);
    reply.append("'");
    reply
}

/// The keyword fallback in plain terms: the rows are tried in order and the
/// first row with a keyword that occurs in the text gives the command; with
/// none, the reply echoes the text as an unknown intent.
pub proof fn lemma_keyword_fallback_table(text: Seq<char>)
    ensures
        keyword_command(text) == ({
            if contains_text(text, "disk"@) || contains_text(text, "space"@) || contains_text(text, "usage"@) || contains_text(text, "storage"@) {
                "df -h"@
            } else if contains_text(text, "memory"@) || contains_text(text, "ram"@) || contains_text(text, "mem"@) || contains_text(text, "usage"@) {
                "free -h"@
            } else if contains_text(text, "ip"@) || contains_text(text, "address"@) || contains_text(text, "my ip"@) {
                "curl ifconfig.me"@
            } else if contains_text(text, "process"@) || contains_text(text, "running"@) || contains_text(text, "ps"@) {
                "ps aux"@
            } else if contains_text(text, "port"@) || contains_text(text, "listening"@) || contains_text(text, "open port"@) {
                "ss -tlnp"@
            } else if contains_text(text, "network"@) || contains_text(text, "connection"@) || contains_text(text, "netstat"@) {
                "ss -tunap"@
            } else if contains_text(text, "file"@) || contains_text(text, "find"@) || contains_text(text, "search file"@) {
                "find . -name "@
            } else if contains_text(text, "docker"@) || contains_text(text, "container"@) || contains_text(text, "images"@) {
                "docker ps"@
            } else if contains_text(text, "git"@) || contains_text(text, "status"@) || contains_text(text, "repo"@) {
                "git status"@
            } else if contains_text(text, "log"@) || contains_text(text, "logs"@) || contains_text(text, "tail"@) {
                "tail -f /var/log/syslog"@
            } else if contains_text(text, "cpu"@) || contains_text(text, "processor"@) || contains_text(text, "top"@) {
                "top -bn1 | head -20"@
            } else if contains_text(text, "who"@) || contains_text(text, "users"@) || contains_text(text, "logged"@) {
                "who"@
            } else if contains_text(text, "uptime"@) || contains_text(text, "load"@) {
                "uptime"@
            } else if contains_text(text, "uname"@) || contains_text(text, "kernel"@) || contains_text(text, "system info"@) {
                "uname -a"@
            } else if contains_text(text, "ping"@) || contains_text(text, "test network"@) {
                "ping -c 4 google.com"@
            } else if contains_text(text, "curl"@) || contains_text(text, "download"@) || contains_text(text, "fetch"@) {
                "curl -sL "@
            } else if contains_text(text, "ls"@) || contains_text(text, "list"@) || contains_text(text, "dir"@) || contains_text(text, "directory"@) {
                "ls -lah"@
            } else if contains_text(text, "cat"@) || contains_text(text, "read"@) || contains_text(text, "show"@) || contains_text(text, "view"@) {
                "cat "@
            } else if contains_text(text, "grep"@) || contains_text(text, "search"@) || contains_text(text, "find text"@) {
                "grep -r "@
            } else if contains_text(text, "chmod"@) || contains_text(text, "permission"@) || contains_text(text, "permissions"@) {
                "chmod "@
            } else if contains_text(text, "kill"@) || contains_text(text, "stop"@) || contains_text(text, "terminate"@) {
                "kill "@
            } else if contains_text(text, "ssh"@) || contains_text(text, "remote"@) || contains_text(text, "connect"@) {
                "ssh "@
            } else if contains_text(text, "scp"@) || contains_text(text, "copy remote"@) {
                "scp "@
            } else if contains_text(text, "tar"@) || contains_text(text, "archive"@) || contains_text(text, "compress"@) || contains_text(text, "zip"@) {
                "tar czf "@
            } else if contains_text(text, "sudo"@) || contains_text(text, "admin"@) || contains_text(text, "root"@) {
                "sudo "@
            } else if contains_text(text, "apt"@) || contains_text(text, "install"@) || contains_text(text, "package"@) {
                "apt install "@
            } else if contains_text(text, "npm"@) || contains_text(text, "node"@) || contains_text(text, "package"@) {
                "npm install "@
            } else if contains_text(text, "python"@) || contains_text(text, "pip"@) || contains_text(text, "python3"@) {
                "python3 "@
            } else if contains_text(text, "make"@) || contains_text(text, "build"@) || contains_text(text, "compile"@) {
                "make"@
            } else if contains_text(text, "systemctl"@) || contains_text(text, "service"@) || contains_text(text, "daemon"@) {
                "systemctl status "@
            } else if contains_text(text, "cron"@) || contains_text(text, "schedule"@) || contains_text(text, "timer"@) {
                "crontab -l"@
            } else if contains_text(text, "env"@) || contains_text(text, "environment"@) || contains_text(text, "variable"@) {
                "env | grep "@
            } else if contains_text(text, "password"@) || contains_text(text, "passwd"@) || contains_text(text, "change password"@) {
                "passwd"@
            } else if contains_text(text, "firewall"@) || contains_text(text, "iptables"@) || contains_text(text, "ufw"@) {
                "ufw status"@
            } else if contains_text(text, "mount"@) || contains_text(text, "drive"@) || contains_text(text, "disk"@) {
                "mount | column -t"@
            } else if contains_text(text, "df"@) || contains_text(text, "disk free"@) {
                "df -h"@
            } else {
                "echo 'Unknown intent: "@ + text + "'"@
            }
        }),
{
    reveal_with_fuel(first_matching_row, 37);
    assert(keyword_row(0).0[0] == "disk"@);
    assert(keyword_row(0).0[1] == "space"@);
    assert(keyword_row(0).0[2] == "usage"@);
    assert(keyword_row(0).0[3] == "storage"@);
    assert(keyword_row(0).0.len() == 4);
    assert(row_matches(text, 0) == (contains_text(text, "disk"@) || contains_text(text, "space"@) || contains_text(text, "usage"@) || contains_text(text, "storage"@)));
    assert(keyword_row(1).0[0] == "memory"@);
    assert(keyword_row(1).0[1] == "ram"@);
    assert(keyword_row(1).0[2] == "mem"@);
    assert(keyword_row(1).0[3] == "usage"@);
    assert(keyword_row(1).0.len() == 4);
    assert(row_matches(text, 1) == (contains_text(text, "memory"@) || contains_text(text, "ram"@) || contains_text(text, "mem"@) || contains_text(text, "usage"@)));
    assert(keyword_row(2).0[0] == "ip"@);
    assert(keyword_row(2).0[1] == "address"@);
    assert(keyword_row(2).0[2] == "my ip"@);
    assert(keyword_row(2).0.len() == 3);
    assert(row_matches(text, 2) == (contains_text(text, "ip"@) || contains_text(text, "address"@) || contains_text(text, "my ip"@)));
    assert(keyword_row(3).0[0] == "process"@);
    assert(keyword_row(3).0[1] == "running"@);
    assert(keyword_row(3).0[2] == "ps"@);
    assert(keyword_row(3).0.len() == 3);
    assert(row_matches(text, 3) == (contains_text(text, "process"@) || contains_text(text, "running"@) || contains_text(text, "ps"@)));
    assert(keyword_row(4).0[0] == "port"@);
    assert(keyword_row(4).0[1] == "listening"@);
    assert(keyword_row(4).0[2] == "open port"@);
    assert(keyword_row(4).0.len() == 3);
    assert(row_matches(text, 4) == (contains_text(text, "port"@) || contains_text(text, "listening"@) || contains_text(text, "open port"@)));
    assert(keyword_row(5).0[0] == "network"@);
    assert(keyword_row(5).0[1] == "connection"@);
    assert(keyword_row(5).0[2] == "netstat"@);
    assert(keyword_row(5).0.len() == 3);
    assert(row_matches(text, 5) == (contains_text(text, "network"@) || contains_text(text, "connection"@) || contains_text(text, "netstat"@)));
    assert(keyword_row(6).0[0] == "file"@);
    assert(keyword_row(6).0[1] == "find"@);
    assert(keyword_row(6).0[2] == "search file"@);
    assert(keyword_row(6).0.len() == 3);
    assert(row_matches(text, 6) == (contains_text(text, "file"@) || contains_text(text, "find"@) || contains_text(text, "search file"@)));
    assert(keyword_row(7).0[0] == "docker"@);
    assert(keyword_row(7).0[1] == "container"@);
    assert(keyword_row(7).0[2] == "images"@);
    assert(keyword_row(7).0.len() == 3);
    assert(row_matches(text, 7) == (contains_text(text, "docker"@) || contains_text(text, "container"@) || contains_text(text, "images"@)));
    assert(keyword_row(8).0[0] == "git"@);
    assert(keyword_row(8).0[1] == "status"@);
    assert(keyword_row(8).0[2] == "repo"@);
    assert(keyword_row(8).0.len() == 3);
    assert(row_matches(text, 8) == (contains_text(text, "git"@) || contains_text(text, "status"@) || contains_text(text, "repo"@)));
    assert(keyword_row(9).0[0] == "log"@);
    assert(keyword_row(9).0[1] == "logs"@);
    assert(keyword_row(9).0[2] == "tail"@);
    assert(keyword_row(9).0.len() == 3);
    assert(row_matches(text, 9) == (contains_text(text, "log"@) || contains_text(text, "logs"@) || contains_text(text, "tail"@)));
    assert(keyword_row(10).0[0] == "cpu"@);
    assert(keyword_row(10).0[1] == "processor"@);
    assert(keyword_row(10).0[2] == "top"@);
    assert(keyword_row(10).0.len() == 3);
    assert(row_matches(text, 10) == (contains_text(text, "cpu"@) || contains_text(text, "processor"@) || contains_text(text, "top"@)));
    assert(keyword_row(11).0[0] == "who"@);
    assert(keyword_row(11).0[1] == "users"@);
    assert(keyword_row(11).0[2] == "logged"@);
    assert(keyword_row(11).0.len() == 3);
    assert(row_matches(text, 11) == (contains_text(text, "who"@) || contains_text(text, "users"@) || contains_text(text, "logged"@)));
    assert(keyword_row(12).0[0] == "uptime"@);
    assert(keyword_row(12).0[1] == "load"@);
    assert(keyword_row(12).0.len() == 2);
    assert(row_matches(text, 12) == (contains_text(text, "uptime"@) || contains_text(text, "load"@)));
    assert(keyword_row(13).0[0] == "uname"@);
    assert(keyword_row(13).0[1] == "kernel"@);
    assert(keyword_row(13).0[2] == "system info"@);
    assert(keyword_row(13).0.len() == 3);
    assert(row_matches(text, 13) == (contains_text(text, "uname"@) || contains_text(text, "kernel"@) || contains_text(text, "system info"@)));
    assert(keyword_row(14).0[0] == "ping"@);
    assert(keyword_row(14).0[1] == "test network"@);
    assert(keyword_row(14).0.len() == 2);
    assert(row_matches(text, 14) == (contains_text(text, "ping"@) || contains_text(text, "test network"@)));
    assert(keyword_row(15).0[0] == "curl"@);
    assert(keyword_row(15).0[1] == "download"@);
    assert(keyword_row(15).0[2] == "fetch"@);
    assert(keyword_row(15).0.len() == 3);
    assert(row_matches(text, 15) == (contains_text(text, "curl"@) || contains_text(text, "download"@) || contains_text(text, "fetch"@)));
    assert(keyword_row(16).0[0] == "ls"@);
    assert(keyword_row(16).0[1] == "list"@);
    assert(keyword_row(16).0[2] == "dir"@);
    assert(keyword_row(16).0[3] == "directory"@);
    assert(keyword_row(16).0.len() == 4);
    assert(row_matches(text, 16) == (contains_text(text, "ls"@) || contains_text(text, "list"@) || contains_text(text, "dir"@) || contains_text(text, "directory"@)));
    assert(keyword_row(17).0[0] == "cat"@);
    assert(keyword_row(17).0[1] == "read"@);
    assert(keyword_row(17).0[2] == "show"@);
    assert(keyword_row(17).0[3] == "view"@);
    assert(keyword_row(17).0.len() == 4);
    assert(row_matches(text, 17) == (contains_text(text, "cat"@) || contains_text(text, "read"@) || contains_text(text, "show"@) || contains_text(text, "view"@)));
    assert(keyword_row(18).0[0] == "grep"@);
    assert(keyword_row(18).0[1] == "search"@);
    assert(keyword_row(18).0[2] == "find text"@);
    assert(keyword_row(18).0.len() == 3);
    assert(row_matches(text, 18) == (contains_text(text, "grep"@) || contains_text(text, "search"@) || contains_text(text, "find text"@)));
    assert(keyword_row(19).0[0] == "chmod"@);
    assert(keyword_row(19).0[1] == "permission"@);
    assert(keyword_row(19).0[2] == "permissions"@);
    assert(keyword_row(19).0.len() == 3);
    assert(row_matches(text, 19) == (contains_text(text, "chmod"@) || contains_text(text, "permission"@) || contains_text(text, "permissions"@)));
    assert(keyword_row(20).0[0] == "kill"@);
    assert(keyword_row(20).0[1] == "stop"@);
    assert(keyword_row(20).0[2] == "terminate"@);
    assert(keyword_row(20).0.len() == 3);
    assert(row_matches(text, 20) == (contains_text(text, "kill"@) || contains_text(text, "stop"@) || contains_text(text, "terminate"@)));
    assert(keyword_row(21).0[0] == "ssh"@);
    assert(keyword_row(21).0[1] == "remote"@);
    assert(keyword_row(21).0[2] == "connect"@);
    assert(keyword_row(21).0.len() == 3);
    assert(row_matches(text, 21) == (contains_text(text, "ssh"@) || contains_text(text, "remote"@) || contains_text(text, "connect"@)));
    assert(keyword_row(22).0[0] == "scp"@);
    assert(keyword_row(22).0[1] == "copy remote"@);
    assert(keyword_row(22).0.len() == 2);
    assert(row_matches(text, 22) == (contains_text(text, "scp"@) || contains_text(text, "copy remote"@)));
    assert(keyword_row(23).0[0] == "tar"@);
    assert(keyword_row(23).0[1] == "archive"@);
    assert(keyword_row(23).0[2] == "compress"@);
    assert(keyword_row(23).0[3] == "zip"@);
    assert(keyword_row(23).0.len() == 4);
    assert(row_matches(text, 23) == (contains_text(text, "tar"@) || contains_text(text, "archive"@) || contains_text(text, "compress"@) || contains_text(text, "zip"@)));
    assert(keyword_row(24).0[0] == "sudo"@);
    assert(keyword_row(24).0[1] == "admin"@);
    assert(keyword_row(24).0[2] == "root"@);
    assert(keyword_row(24).0.len() == 3);
    assert(row_matches(text, 24) == (contains_text(text, "sudo"@) || contains_text(text, "admin"@) || contains_text(text, "root"@)));
    assert(keyword_row(25).0[0] == "apt"@);
    assert(keyword_row(25).0[1] == "install"@);
    assert(keyword_row(25).0[2] == "package"@);
    assert(keyword_row(25).0.len() == 3);
    assert(row_matches(text, 25) == (contains_text(text, "apt"@) || contains_text(text, "install"@) || contains_text(text, "package"@)));
    assert(keyword_row(26).0[0] == "npm"@);
    assert(keyword_row(26).0[1] == "node"@);
    assert(keyword_row(26).0[2] == "package"@);
    assert(keyword_row(26).0.len() == 3);
    assert(row_matches(text, 26) == (contains_text(text, "npm"@) || contains_text(text, "node"@) || contains_text(text, "package"@)));
    assert(keyword_row(27).0[0] == "python"@);
    assert(keyword_row(27).0[1] == "pip"@);
    assert(keyword_row(27).0[2] == "python3"@);
    assert(keyword_row(27).0.len() == 3);
    assert(row_matches(text, 27) == (contains_text(text, "python"@) || contains_text(text, "pip"@) || contains_text(text, "python3"@)));
    assert(keyword_row(28).0[0] == "make"@);
    assert(keyword_row(28).0[1] == "build"@);
    assert(keyword_row(28).0[2] == "compile"@);
    assert(keyword_row(28).0.len() == 3);
    assert(row_matches(text, 28) == (contains_text(text, "make"@) || contains_text(text, "build"@) || contains_text(text, "compile"@)));
    assert(keyword_row(29).0[0] == "systemctl"@);
    assert(keyword_row(29).0[1] == "service"@);
    assert(keyword_row(29).0[2] == "daemon"@);
    assert(keyword_row(29).0.len() == 3);
    assert(row_matches(text, 29) == (contains_text(text, "systemctl"@) || contains_text(text, "service"@) || contains_text(text, "daemon"@)));
    assert(keyword_row(30).0[0] == "cron"@);
    assert(keyword_row(30).0[1] == "schedule"@);
    assert(keyword_row(30).0[2] == "timer"@);
    assert(keyword_row(30).0.len() == 3);
    assert(row_matches(text, 30) == (contains_text(text, "cron"@) || contains_text(text, "schedule"@) || contains_text(text, "timer"@)));
    assert(keyword_row(31).0[0] == "env"@);
    assert(keyword_row(31).0[1] == "environment"@);
    assert(keyword_row(31).0[2] == "variable"@);
    assert(keyword_row(31).0.len() == 3);
    assert(row_matches(text, 31) == (contains_text(text, "env"@) || contains_text(text, "environment"@) || contains_text(text, "variable"@)));
    assert(keyword_row(32).0[0] == "password"@);
    assert(keyword_row(32).0[1] == "passwd"@);
    assert(keyword_row(32).0[2] == "change password"@);
    assert(keyword_row(32).0.len() == 3);
    assert(row_matches(text, 32) == (contains_text(text, "password"@) || contains_text(text, "passwd"@) || contains_text(text, "change password"@)));
    assert(keyword_row(33).0[0] == "firewall"@);
    assert(keyword_row(33).0[1] == "iptables"@);
    assert(keyword_row(33).0[2] == "ufw"@);
    assert(keyword_row(33).0.len() == 3);
    assert(row_matches(text, 33) == (contains_text(text, "firewall"@) || contains_text(text, "iptables"@) || contains_text(text, "ufw"@)));
    assert(keyword_row(34).0[0] == "mount"@);
    assert(keyword_row(34).0[1] == "drive"@);
    assert(keyword_row(34).0[2] == "disk"@);
    assert(keyword_row(34).0.len() == 3);
    assert(row_matches(text, 34) == (contains_text(text, "mount"@) || contains_text(text, "drive"@) || contains_text(text, "disk"@)));
    assert(keyword_row(35).0[0] == "df"@);
    assert(keyword_row(35).0[1] == "disk free"@);
    assert(keyword_row(35).0.len() == 2);
    assert(row_matches(text, 35) == (contains_text(text, "df"@) || contains_text(text, "disk free"@)));
}

} // verus!
