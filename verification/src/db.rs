use vstd::prelude::*;

verus! {

/// One command of the database: an intent and the command it stands for.
pub struct CommandEntry {
    pub intent: String,
    pub command: String,
}

impl View for CommandEntry {
    type V = (Seq<char>, Seq<char>);

    open spec fn view(&self) -> (Seq<char>, Seq<char>) {
        (self.intent@, self.command@)
    }
}

impl CommandEntry {
    /// An entry with copies of the given intent and command.
    pub fn new(intent: &str, command: &str) -> (entry: CommandEntry)
        ensures
            entry@ == (intent@, command@),
    {
        CommandEntry { intent: String::from_str(intent), command: String::from_str(command) }
    }

    /// A copy of the entry.
    pub fn duplicate(&self) -> (copy: CommandEntry)
        ensures
            copy@ == self@,
    {
        CommandEntry { intent: self.intent.clone(), command: self.command.clone() }
    }
}

/// The views of a sequence of entries.
pub open spec fn entry_views(entries: Seq<CommandEntry>) -> Seq<(Seq<char>, Seq<char>)> {
    entries.map_values(|e: CommandEntry| e@)
}

/// The command database: intent/command pairs in the order they were added.
pub struct CommandDb {
    entries: Vec<CommandEntry>,
}

impl View for CommandDb {
    type V = Seq<(Seq<char>, Seq<char>)>;

    closed spec fn view(&self) -> Seq<(Seq<char>, Seq<char>)> {
        entry_views(self.entries@)
    }
}

impl CommandDb {
    /// An empty database.
    pub fn new() -> (db: CommandDb)
        ensures
            db@ == Seq::<(Seq<char>, Seq<char>)>::empty(),
    {
        let db = CommandDb { entries: Vec::new() };
        assert(db@ =~= Seq::<(Seq<char>, Seq<char>)>::empty());
        db
    }

    /// The entries, in order.
    pub fn entries(&self) -> (entries: &[CommandEntry])
        ensures
            entry_views(entries@) == self@,
    {
        self.entries.as_slice()
    }

    /// Appends entries at the end.
    fn append_entries(&mut self, entries: Vec<CommandEntry>)
        ensures
            final(self)@ == old(self)@ + entry_views(entries@),
    {
        let ghost before = self@;
        let mut i: usize = 0;
        while i < entries.len()
            invariant
                i <= entries@.len(),
                self@ == before + entry_views(entries@.take(i as int)),
            decreases entries@.len() - i,
        {
            let e = entries[i].duplicate();
            let ghost prev = self.entries@;
            self.entries.push(e);
            assert(entry_views(prev.push(e)) =~= entry_views(prev).push(e@));
            assert(entry_views(entries@.take(i + 1)) =~= entry_views(entries@.take(i as int)).push(
                e@,
            ));
            assert(self@ =~= before + entry_views(entries@.take(i + 1)));
            i = i + 1;
        }
        assert(entries@.take(i as int) =~= entries@);
    }
}

/// Teaches the database a new intent-to-command mapping: it is appended at
/// the end.
pub fn teach(db: &mut CommandDb, intent: &str, command: &str)
    ensures
        final(db)@ == old(db)@.push((intent@, command@)),
{
    let entry = CommandEntry::new(intent, command);
    let mut one: Vec<CommandEntry> = Vec::new();
    one.push(entry);
    db.append_entries(one);
    assert(entry_views(seq![entry]) =~= seq![(intent@, command@)]);
}

/// The entries that a batch load takes: the list read as a plain array
/// if that reading succeeded, else the list read from a `commands` field.
pub open spec fn loaded_batch(
    as_array: Option<Vec<CommandEntry>>,
    as_wrapped: Option<Vec<CommandEntry>>,
) -> Option<Seq<CommandEntry>> {
    match as_array {
        Some(entries) => Some(entries@),
        None => match as_wrapped {
            Some(entries) => Some(entries@),
            None => None,
        },
    }
}

/// Loads a batch of commands, given the two readings of the batch's JSON
/// text: `as_array` for a plain array of `{intent, command}` objects,
/// `as_wrapped` for an object with a `commands` field holding such an array
/// (`None` where the text is not of that form). The plain array wins; the
/// entries of the reading that succeeded are appended and their number is
/// returned; when neither succeeded nothing changes and 0 is returned.
pub fn load_commands(
    db: &mut CommandDb,
    as_array: Option<Vec<CommandEntry>>,
    as_wrapped: Option<Vec<CommandEntry>>,
) -> (count: usize)
    ensures
        match loaded_batch(as_array, as_wrapped) {
            Some(entries) => {
                &&& final(db)@ == old(db)@ + entry_views(entries)
                &&& count == entries.len()
            },
            None => {
                &&& final(db)@ == old(db)@
                &&& count == 0
            },
        },
{
    let batch = match as_array {
        Some(entries) => entries,
        None => match as_wrapped {
            Some(entries) => entries,
            None => return 0,
        },
    };
    let count = batch.len();
    db.append_entries(batch);
    count
}

/// Loading appends the entries of the reading that succeeded in their input
/// order, after the old entries, and returns their number: with the plain
/// array `e_0 .. e_{n-1}` (or, failing that, the `commands` list), entry
/// `old.len() + k` afterwards is `(e_k.intent, e_k.command)`; with neither
/// reading nothing changes and the count is 0.
pub proof fn lemma_load_appends_in_order(
    old_db: Seq<(Seq<char>, Seq<char>)>,
    new_db: Seq<(Seq<char>, Seq<char>)>,
    as_array: Option<Vec<CommandEntry>>,
    as_wrapped: Option<Vec<CommandEntry>>,
    count: usize,
)
    requires
        match loaded_batch(as_array, as_wrapped) {
            Some(entries) => {
                &&& new_db == old_db + entry_views(entries)
                &&& count == entries.len()
            },
            None => {
                &&& new_db == old_db
                &&& count == 0
            },
        },
    ensures
        new_db.len() == old_db.len() + count,
        forall|k: int| 0 <= k < old_db.len() ==> new_db[k] == old_db[k],
        as_array matches Some(v) ==> {
            &&& count == v@.len()
            &&& forall|k: int|
                0 <= k < v@.len() ==> #[trigger] new_db[old_db.len() + k] == (
                    v@[k].intent@,
                    v@[k].command@,
                )
        },
        as_array is None ==> (as_wrapped matches Some(w) ==> {
            &&& count == w@.len()
            &&& forall|k: int|
                0 <= k < w@.len() ==> #[trigger] new_db[old_db.len() + k] == (
                    w@[k].intent@,
                    w@[k].command@,
                )
        }),
        as_array is None && as_wrapped is None ==> count == 0 && new_db == old_db,
{
}

/// The entries of the database, as intent/command pairs, in order.
pub fn export_commands(db: &CommandDb) -> (exported: Vec<CommandEntry>)
    ensures
        entry_views(exported@) == db@,
{
    let entries = db.entries();
    let mut exported: Vec<CommandEntry> = Vec::new();
    let mut i: usize = 0;
    while i < entries.len()
        invariant
            i <= entries@.len(),
            entry_views(entries@) == db@,
            entry_views(exported@) == entry_views(entries@.take(i as int)),
        decreases entries@.len() - i,
    {
        let e = entries[i].duplicate();
        let ghost prev = exported@;
        exported.push(e);
        assert(entry_views(prev.push(e)) =~= entry_views(prev).push(e@));
        assert(entry_views(entries@.take(i + 1)) =~= entry_views(entries@.take(i as int)).push(e@));
        assert(entry_views(exported@) =~= entry_views(entries@.take(i + 1)));
        i = i + 1;
    }
    assert(entries@.take(i as int) =~= entries@);
    exported
}

/// Empties the database.
pub fn clear_commands(db: &mut CommandDb)
    ensures
        final(db)@ == Seq::<(Seq<char>, Seq<char>)>::empty(),
{
    db.entries.clear();
    assert(db@ =~= Seq::<(Seq<char>, Seq<char>)>::empty());
}

/// Number of commands in the database.
pub fn command_count(db: &CommandDb) -> (count: usize)
    ensures
        count == db@.len(),
{
    db.entries.len()
}

/// Number of seed commands.
pub const SEED_COUNT: usize = 30;

/// Seed command `i`: an intent and its command.
pub open spec fn seed_entry(i: usize) -> (Seq<char>, Seq<char>) {
    match i {
        0 => ("check disk usage"@, "df -h"@),
        1 => ("show memory usage"@, "free -h"@),
        2 => ("list running processes"@, "ps aux"@),
        3 => ("show my ip address"@, "curl ifconfig.me"@),
        4 => ("check open ports"@, "ss -tlnp"@),
        5 => ("show network connections"@, "ss -tunap"@),
        6 => ("git status"@, "git status"@),
        7 => ("docker list containers"@, "docker ps"@),
        8 => ("check system uptime"@, "uptime"@),
        9 => ("show system info"@, "uname -a"@),
        10 => ("list files"@, "ls -lah"@),
        11 => ("check cpu usage"@, "top -bn1 | head -20"@),
        12 => ("show logged in users"@, "who"@),
        13 => ("find large files"@, "find . -type f -size +100M"@),
        14 => ("check firewall status"@, "ufw status"@),
        15 => ("view system logs"@, "journalctl -u"@),
        16 => ("restart service"@, "systemctl restart "@),
        17 => ("check environment variables"@, "env | grep "@),
        18 => ("ping test"@, "ping -c 4 google.com"@),
        19 => ("download file"@, "curl -sLO "@),
        20 => ("search text in files"@, "grep -r "@),
        21 => ("create archive"@, "tar czf archive.tar.gz "@),
        22 => ("install package"@, "apt install "@),
        23 => ("check cron jobs"@, "crontab -l"@),
        24 => ("mount disks"@, "mount | column -t"@),
        25 => ("show directory tree"@, "find . -type d | head -50"@),
        26 => ("kill process"@, "kill "@),
        27 => ("ssh connect"@, "ssh "@),
        28 => ("file permissions"@, "chmod "@),
        _ => ("compress files"@, "tar czf "@),
    }
}

/// The seed commands, in order.
pub open spec fn seed_table() -> Seq<(Seq<char>, Seq<char>)> {
    Seq::new(SEED_COUNT as nat, |i: int| seed_entry(i as usize))
}

/// Seeding adds exactly these 30 intent/command pairs, in this order, after
/// the old entries (with `seed_commands`'s contract).
pub proof fn lemma_seed_pairs()
    ensures
        seed_table() == seq![
            ("check disk usage"@, "df -h"@),
            ("show memory usage"@, "free -h"@),
            ("list running processes"@, "ps aux"@),
            ("show my ip address"@, "curl ifconfig.me"@),
            ("check open ports"@, "ss -tlnp"@),
            ("show network connections"@, "ss -tunap"@),
            ("git status"@, "git status"@),
            ("docker list containers"@, "docker ps"@),
            ("check system uptime"@, "uptime"@),
            ("show system info"@, "uname -a"@),
            ("list files"@, "ls -lah"@),
            ("check cpu usage"@, "top -bn1 | head -20"@),
            ("show logged in users"@, "who"@),
            ("find large files"@, "find . -type f -size +100M"@),
            ("check firewall status"@, "ufw status"@),
            ("view system logs"@, "journalctl -u"@),
            ("restart service"@, "systemctl restart "@),
            ("check environment variables"@, "env | grep "@),
            ("ping test"@, "ping -c 4 google.com"@),
            ("download file"@, "curl -sLO "@),
            ("search text in files"@, "grep -r "@),
            ("create archive"@, "tar czf archive.tar.gz "@),
            ("install package"@, "apt install "@),
            ("check cron jobs"@, "crontab -l"@),
            ("mount disks"@, "mount | column -t"@),
            ("show directory tree"@, "find . -type d | head -50"@),
            ("kill process"@, "kill "@),
            ("ssh connect"@, "ssh "@),
            ("file permissions"@, "chmod "@),
            ("compress files"@, "tar czf "@)
        ],
{
    assert(seed_table()[0] == ("check disk usage"@, "df -h"@));
    assert(seed_table()[1] == ("show memory usage"@, "free -h"@));
    assert(seed_table()[2] == ("list running processes"@, "ps aux"@));
    assert(seed_table()[3] == ("show my ip address"@, "curl ifconfig.me"@));
    assert(seed_table()[4] == ("check open ports"@, "ss -tlnp"@));
    assert(seed_table()[5] == ("show network connections"@, "ss -tunap"@));
    assert(seed_table()[6] == ("git status"@, "git status"@));
    assert(seed_table()[7] == ("docker list containers"@, "docker ps"@));
    assert(seed_table()[8] == ("check system uptime"@, "uptime"@));
    assert(seed_table()[9] == ("show system info"@, "uname -a"@));
    assert(seed_table()[10] == ("list files"@, "ls -lah"@));
    assert(seed_table()[11] == ("check cpu usage"@, "top -bn1 | head -20"@));
    assert(seed_table()[12] == ("show logged in users"@, "who"@));
    assert(seed_table()[13] == ("find large files"@, "find . -type f -size +100M"@));
    assert(seed_table()[14] == ("check firewall status"@, "ufw status"@));
    assert(seed_table()[15] == ("view system logs"@, "journalctl -u"@));
    assert(seed_table()[16] == ("restart service"@, "systemctl restart "@));
    assert(seed_table()[17] == ("check environment variables"@, "env | grep "@));
    assert(seed_table()[18] == ("ping test"@, "ping -c 4 google.com"@));
    assert(seed_table()[19] == ("download file"@, "curl -sLO "@));
    assert(seed_table()[20] == ("search text in files"@, "grep -r "@));
    assert(seed_table()[21] == ("create archive"@, "tar czf archive.tar.gz "@));
    assert(seed_table()[22] == ("install package"@, "apt install "@));
    assert(seed_table()[23] == ("check cron jobs"@, "crontab -l"@));
    assert(seed_table()[24] == ("mount disks"@, "mount | column -t"@));
    assert(seed_table()[25] == ("show directory tree"@, "find . -type d | head -50"@));
    assert(seed_table()[26] == ("kill process"@, "kill "@));
    assert(seed_table()[27] == ("ssh connect"@, "ssh "@));
    assert(seed_table()[28] == ("file permissions"@, "chmod "@));
    assert(seed_table()[29] == ("compress files"@, "tar czf "@));
    assert(seed_table() =~= seq![
            ("check disk usage"@, "df -h"@),
            ("show memory usage"@, "free -h"@),
            ("list running processes"@, "ps aux"@),
            ("show my ip address"@, "curl ifconfig.me"@),
            ("check open ports"@, "ss -tlnp"@),
            ("show network connections"@, "ss -tunap"@),
            ("git status"@, "git status"@),
            ("docker list containers"@, "docker ps"@),
            ("check system uptime"@, "uptime"@),
            ("show system info"@, "uname -a"@),
            ("list files"@, "ls -lah"@),
            ("check cpu usage"@, "top -bn1 | head -20"@),
            ("show logged in users"@, "who"@),
            ("find large files"@, "find . -type f -size +100M"@),
            ("check firewall status"@, "ufw status"@),
            ("view system logs"@, "journalctl -u"@),
            ("restart service"@, "systemctl restart "@),
            ("check environment variables"@, "env | grep "@),
            ("ping test"@, "ping -c 4 google.com"@),
            ("download file"@, "curl -sLO "@),
            ("search text in files"@, "grep -r "@),
            ("create archive"@, "tar czf archive.tar.gz "@),
            ("install package"@, "apt install "@),
            ("check cron jobs"@, "crontab -l"@),
            ("mount disks"@, "mount | column -t"@),
            ("show directory tree"@, "find . -type d | head -50"@),
            ("kill process"@, "kill "@),
            ("ssh connect"@, "ssh "@),
            ("file permissions"@, "chmod "@),
            ("compress files"@, "tar czf "@)
        ]);
}

fn seed_entry_exec(i: usize) -> (pair: (&'static str, &'static str))
    requires
        i < SEED_COUNT,
    ensures
        (pair.0@, pair.1@) == seed_entry(i),
{
    match i {
        0 => ("check disk usage", "df -h"),
        1 => ("show memory usage", "free -h"),
        2 => ("list running processes", "ps aux"),
        3 => ("show my ip address", "curl ifconfig.me"),
        4 => ("check open ports", "ss -tlnp"),
        5 => ("show network connections", "ss -tunap"),
        6 => ("git status", "git status"),
        7 => ("docker list containers", "docker ps"),
        8 => ("check system uptime", "uptime"),
        9 => ("show system info", "uname -a"),
        10 => ("list files", "ls -lah"),
        11 => ("check cpu usage", "top -bn1 | head -20"),
        12 => ("show logged in users", "who"),
        13 => ("find large files", "find . -type f -size +100M"),
        14 => ("check firewall status", "ufw status"),
        15 => ("view system logs", "journalctl -u"),
        16 => ("restart service", "systemctl restart "),
        17 => ("check environment variables", "env | grep "),
        18 => ("ping test", "ping -c 4 google.com"),
        19 => ("download file", "curl -sLO "),
        20 => ("search text in files", "grep -r "),
        21 => ("create archive", "tar czf archive.tar.gz "),
        22 => ("install package", "apt install "),
        23 => ("check cron jobs", "crontab -l"),
        24 => ("mount disks", "mount | column -t"),
        25 => ("show directory tree", "find . -type d | head -50"),
        26 => ("kill process", "kill "),
        27 => ("ssh connect", "ssh "),
        28 => ("file permissions", "chmod "),
        _ => ("compress files", "tar czf "),
    }
}

/// Seeds the database with common commands: they are appended in order and
/// their number is returned.
pub fn seed_commands(db: &mut CommandDb) -> (count: usize)
    ensures
        final(db)@ == old(db)@ + seed_table(),
        count == SEED_COUNT,
{
    let mut batch: Vec<CommandEntry> = Vec::new();
    let mut i: usize = 0;
    while i < SEED_COUNT
        invariant
            i <= SEED_COUNT,
            entry_views(batch@) == seed_table().take(i as int),
        decreases SEED_COUNT - i,
    {
        let pair = seed_entry_exec(i);
        let entry = CommandEntry::new(pair.0, pair.1);
        let ghost prev = batch@;
        batch.push(entry);
        assert(entry_views(prev.push(entry)) =~= entry_views(prev).push(entry@));
        assert(seed_table().take(i + 1) =~= seed_table().take(i as int).push(seed_entry(i)));
        assert(entry_views(batch@) =~= seed_table().take(i + 1));
        i = i + 1;
    }
    assert(seed_table().take(SEED_COUNT as int) =~= seed_table());
    let count = batch.len();
    db.append_entries(batch);
    count
}

} // verus!
