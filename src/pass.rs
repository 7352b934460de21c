//! The credential store: its root and inventory, the storage path of a record,
//! and the protocol of the store program's `otp insert` operation.

use vstd::prelude::*;
use vstd::string::StringExecFns;
use crate::otp::{OTP, OTPs, InvalidReason, invalid_reason};

verus! {

/// The storage path of a record: `OTP/<issuer>/<name>`, or `OTP/<name>`
/// without an issuer.
pub open spec fn canonical_path_of(name: Seq<char>, issuer: Option<Seq<char>>) -> Seq<char> {
    match issuer {
        Some(i) => "OTP/"@ + i + "/"@ + name,
        None => "OTP/"@ + name,
    }
}

/// The issuer of a record, as text.
pub open spec fn issuer_of(o: OTP) -> Option<Seq<char>> {
    match o.issuer {
        Some(i) => Some(i@),
        None => None,
    }
}

/// The texts of a list of strings.
pub open spec fn texts(v: Seq<String>) -> Seq<Seq<char>> {
    v.map_values(|s: String| s@)
}

/// The arguments of the store program that insert a record: the issuer
/// option when there is an issuer, then the `otp insert` operation with forced
/// overwrite, the account and the storage path.
pub open spec fn insert_args(name: Seq<char>, issuer: Option<Seq<char>>) -> Seq<Seq<char>> {
    let issuer_opt = match issuer {
        Some(i) => seq!["--issuer"@, i],
        None => Seq::empty(),
    };
    issuer_opt + seq![
        "otp"@,
        "insert"@,
        "--force"@,
        "--account"@,
        name,
        canonical_path_of(name, issuer),
    ]
}

/// Builds the storage path of a record named `name` with the given issuer.
pub fn canonical_path(name: &str, issuer: Option<&str>) -> (r: String)
    ensures
        r@ == canonical_path_of(
            name@,
            match issuer {
                Some(i) => Some(i@),
                None => None,
            },
        ),
{
    let mut p = String::from_str("OTP/");
    match issuer {
        Some(i) => {
            p.append(i);
            p.append("/");
        },
        None => {},
    }
    p.append(name);
    p
}

/// One run of the store program that writes a record.
pub struct InsertCommand {
    /// The store directory the program works on.
    pub store_dir: String,
    /// The program's arguments.
    pub args: Vec<String>,
    /// What is written to the program's standard input before it is closed.
    pub stdin: String,
    /// The storage path that the record gets.
    pub pass_name: String,
}

/// How a run of the store program ended.
pub enum ProcessOutcome {
    /// The program could not be started; the cause is given.
    SpawnFailed(String),
    /// No pipe to the program's standard input could be had.
    NoStdin,
    /// Writing to the program's standard input failed; the cause is given.
    StdinWriteFailed(String),
    /// The program ended with a failure; the cause is given.
    ExitFailed(String),
    /// The program ended with success.
    Completed,
}

/// A failed write of one record, naming the record.
pub enum WriteError {
    SpawnFailed { name: String, cause: String },
    StdinUnavailable { name: String },
    WriteFailed { name: String, cause: String },
    ProcessFailed { name: String, cause: String },
    InvalidEntry { name: String, reason: InvalidReason },
}

/// A store that cannot be used.
pub enum StoreError {
    /// The path does not name an existing directory.
    NotFound { path: String },
    Unreadable { path: String, cause: String },
}

/// What a look at a candidate store directory found.
pub enum StoreListing {
    Missing,
    NotADirectory,
    /// The directory could not be walked; the cause is given.
    Unreadable(String),
    /// The names of the files found under the directory, at any depth.
    Listed(Vec<String>),
}

/// The files that a listing found; none when it found no directory.
pub open spec fn listed_files(listing: StoreListing) -> Seq<String> {
    match listing {
        StoreListing::Listed(files) => files@,
        _ => Seq::empty(),
    }
}

/// The error for a store directory at `path` that cannot be used, if the
/// listing says so.
pub open spec fn listing_error_matches(
    e: StoreError,
    path: Seq<char>,
    listing: StoreListing,
) -> bool {
    match listing {
        StoreListing::Missing | StoreListing::NotADirectory => e matches StoreError::NotFound {
            path: p,
        } && p@ == path,
        StoreListing::Unreadable(cause) => e matches StoreError::Unreadable { path: p, cause: c }
            && p@ == path && c == cause,
        StoreListing::Listed(_) => false,
    }
}

/// The error for a store directory at `path` whose listing is not `Listed`.
fn listing_error(path: &str, listing: StoreListing) -> (r: StoreError)
    requires
        !(listing is Listed),
    ensures
        listing_error_matches(r, path@, listing),
{
    match listing {
        StoreListing::Missing => StoreError::NotFound { path: String::from_str(path) },
        StoreListing::NotADirectory => StoreError::NotFound { path: String::from_str(path) },
        StoreListing::Unreadable(cause) => StoreError::Unreadable {
            path: String::from_str(path),
            cause,
        },
        StoreListing::Listed(_) => StoreError::NotFound { path: String::from_str(path) },
    }
}

/// An open credential store: its root directory and the files found there
/// when it was opened.
pub struct Pass {
    base_path: String,
    entries: Vec<String>,
}

impl Pass {
    pub closed spec fn root(&self) -> Seq<char> {
        self.base_path@
    }

    pub closed spec fn inventory(&self) -> Seq<String> {
        self.entries@
    }

    /// Opens the store at `root`, given what a look at that directory found.
    pub fn new(root: String, listing: StoreListing) -> (r: Result<Pass, StoreError>)
        ensures
            r is Ok <==> listing is Listed,
            r matches Ok(p) ==> p.root() == root@ && p.inventory() == listed_files(listing),
            r matches Err(e) ==> listing_error_matches(e, root@, listing),
    {
        match listing {
            StoreListing::Listed(files) => Ok(Pass { base_path: root, entries: files }),
            _ => Err(listing_error(root.as_str(), listing)),
        }
    }

    /// Points the store at `new_path`, given what a look at that directory
    /// found; on failure the store is left as it was.
    pub fn change_pass_store_path(&mut self, new_path: &str, listing: StoreListing) -> (r: Result<
        (),
        StoreError,
    >)
        ensures
            r is Ok <==> listing is Listed,
            r is Ok ==> final(self).root() == new_path@ && final(self).inventory() == listed_files(
                listing,
            ),
            r matches Err(e) ==> listing_error_matches(e, new_path@, listing) && *final(self)
                == *old(self),
    {
        match listing {
            StoreListing::Listed(files) => {
                self.base_path = String::from_str(new_path);
                self.entries = files;
                Ok(())
            },
            _ => Err(listing_error(new_path, listing)),
        }
    }

    /// Brings the store up to date; the store program keeps it so, so nothing
    /// is left to do.
    pub fn update_pass_store(&mut self) -> (r: Result<(), StoreError>)
        ensures
            r is Ok,
            *final(self) == *old(self),
    {
        Ok(())
    }

    /// The files found in the store when it was opened or last repointed.
    pub fn get_entries(&self) -> (r: &Vec<String>)
        ensures
            r@ == self.inventory(),
    {
        &self.entries
    }

    /// The store's root directory.
    pub fn get_base_path(&self) -> (r: Result<&str, StoreError>)
        ensures
            r matches Ok(p) && p@ == self.root(),
    {
        Ok(self.base_path.as_str())
    }
}


/// The issuer of a record as a string slice, if it has one.
fn issuer_str(o: &OTP) -> (r: Option<&str>)
    ensures
        match r {
            Some(i) => issuer_of(*o) == Some(i@),
            None => issuer_of(*o) is None,
        },
{
    match &o.issuer {
        Some(i) => Some(i.as_str()),
        None => None,
    }
}

/// The result of writing `entry` when the store program's run ended with
/// `outcome`: its storage path on success, else the error naming it.
pub open spec fn write_result_matches(
    r: Result<String, WriteError>,
    entry: OTP,
    outcome: ProcessOutcome,
) -> bool {
    match outcome {
        ProcessOutcome::Completed => r matches Ok(path) && path@ == canonical_path_of(
            entry.name@,
            issuer_of(entry),
        ),
        ProcessOutcome::SpawnFailed(cause) => r matches Err(WriteError::SpawnFailed { name, cause: c })
            && name == entry.name && c == cause,
        ProcessOutcome::NoStdin => r matches Err(WriteError::StdinUnavailable { name })
            && name == entry.name,
        ProcessOutcome::StdinWriteFailed(cause) => r matches Err(
            WriteError::WriteFailed { name, cause: c },
        ) && name == entry.name && c == cause,
        ProcessOutcome::ExitFailed(cause) => r matches Err(
            WriteError::ProcessFailed { name, cause: c },
        ) && name == entry.name && c == cause,
    }
}

/// The next thing to do in a batch write.
pub enum BatchStep {
    /// Run `command`, which writes the record at `index`.
    Write { index: usize, command: InsertCommand },
    /// Every record was written.
    Done,
    /// A write failed; the batch stops.
    Abort { error: WriteError },
}

impl Pass {
    /// The run of the store program that writes `entry` into this store.
    pub fn insert_command(&self, entry: &OTP) -> (r: InsertCommand)
        ensures
            r.store_dir@ == self.root(),
            texts(r.args@) == insert_args(entry.name@, issuer_of(*entry)),
            r.stdin@ == entry.url@ + "\n"@,
            r.pass_name@ == canonical_path_of(entry.name@, issuer_of(*entry)),
    {
        let issuer = issuer_str(entry);
        let pass_name = canonical_path(entry.name.as_str(), issuer);
        let mut args: Vec<String> = Vec::new();
        match issuer {
            Some(i) => {
                args.push(String::from_str("--issuer"));
                args.push(String::from_str(i));
            },
            None => {},
        }
        args.push(String::from_str("otp"));
        args.push(String::from_str("insert"));
        args.push(String::from_str("--force"));
        args.push(String::from_str("--account"));
        args.push(entry.name.clone());
        args.push(pass_name.clone());
        assert(texts(args@) =~= insert_args(entry.name@, issuer_of(*entry)));
        let mut stdin = entry.url.clone();
        stdin.append("\n");
        InsertCommand { store_dir: self.base_path.clone(), args, stdin, pass_name }
    }

    /// The result of writing `entry` when the run of its insert command ended
    /// with `outcome`.
    pub fn add_entry(&self, entry: &OTP, outcome: ProcessOutcome) -> (r: Result<
        String,
        WriteError,
    >)
        ensures
            write_result_matches(r, *entry, outcome),
    {
        let name = entry.name.clone();
        match outcome {
            ProcessOutcome::Completed => Ok(canonical_path(entry.name.as_str(), issuer_str(entry))),
            ProcessOutcome::SpawnFailed(cause) => Err(WriteError::SpawnFailed { name, cause }),
            ProcessOutcome::NoStdin => Err(WriteError::StdinUnavailable { name }),
            ProcessOutcome::StdinWriteFailed(cause) => Err(WriteError::WriteFailed { name, cause }),
            ProcessOutcome::ExitFailed(cause) => Err(WriteError::ProcessFailed { name, cause }),
        }
    }

    /// The first step of writing every record of `entries`, in order: the
    /// batch stops at the first failed write.
    pub fn add_entries(&self, entries: &OTPs) -> (r: BatchStep)
        ensures
            entries@.len() == 0 ==> r is Done,
            entries@.len() > 0 ==> (r matches BatchStep::Write { index, command } && index == 0
                && command_for(command, *self, entries@[0])),
    {
        let data = entries.get_data();
        if data.len() == 0 {
            BatchStep::Done
        } else {
            BatchStep::Write { index: 0, command: self.insert_command(&data[0]) }
        }
    }

    /// The step after the write of record `index` of `entries` ended with
    /// `outcome`: the next record's write, the end of the batch, or its abort
    /// with the failed record's error.
    pub fn add_entries_next(&self, entries: &OTPs, index: usize, outcome: ProcessOutcome) -> (r:
        BatchStep)
        requires
            index < entries@.len(),
        ensures
            !(outcome is Completed) ==> (r matches BatchStep::Abort { error }
                && write_result_matches(Err(error), entries@[index as int], outcome)),
            outcome is Completed && index + 1 == entries@.len() ==> r is Done,
            outcome is Completed && index + 1 < entries@.len() ==> (r matches BatchStep::Write {
                index: next,
                command,
            } && next == index + 1 && command_for(command, *self, entries@[next as int])),
    {
        let data = entries.get_data();
        let n: usize = data.len();
        match self.add_entry(&data[index], outcome) {
            Ok(_) => {
                if index + 1 == n {
                    BatchStep::Done
                } else {
                    BatchStep::Write {
                        index: index + 1,
                        command: self.insert_command(&data[index + 1]),
                    }
                }
            },
            Err(error) => BatchStep::Abort { error },
        }
    }
}

/// `c` is the run of the store program that writes `entry` into `p`.
pub open spec fn command_for(c: InsertCommand, p: Pass, entry: OTP) -> bool {
    &&& c.store_dir@ == p.root()
    &&& texts(c.args@) == insert_args(entry.name@, issuer_of(entry))
    &&& c.stdin@ == entry.url@ + "\n"@
    &&& c.pass_name@ == canonical_path_of(entry.name@, issuer_of(entry))
}

/// Writing a record again runs the same command, which overwrites the entry
/// rather than adding one, and stores the record at the same path.
pub proof fn lemma_rewrite_same_path(p: Pass, entry: OTP, c1: InsertCommand, c2: InsertCommand)
    requires
        command_for(c1, p, entry),
        command_for(c2, p, entry),
    ensures
        texts(c1.args@) == texts(c2.args@),
        c1.stdin@ == c2.stdin@,
        c1.pass_name@ == c2.pass_name@,
        texts(c1.args@).contains("--force"@),
        texts(c1.args@).last() == c1.pass_name@,
{
    let args = insert_args(entry.name@, issuer_of(entry));
    match issuer_of(entry) {
        Some(_) => assert(args[4] == "--force"@),
        None => assert(args[2] == "--force"@),
    }
}

impl OTP {
    /// The result of writing this record to `pass`: an invalid record (under
    /// the validator's verdict `uri_accepted`) is refused, else the result
    /// follows from how the run of its insert command ended.
    pub fn save_to_pass(&self, pass: &Pass, uri_accepted: bool, outcome: ProcessOutcome) -> (r:
        Result<String, WriteError>)
        ensures
            invalid_reason(*self, uri_accepted) matches Some(reason) ==> r matches Err(
                WriteError::InvalidEntry { name, reason: why },
            ) && name == self.name && why == reason,
            invalid_reason(*self, uri_accepted) is None ==> write_result_matches(r, *self, outcome),
    {
        match self.is_valid(uri_accepted) {
            Err(reason) => Err(WriteError::InvalidEntry { name: self.name.clone(), reason }),
            Ok(()) => pass.add_entry(self, outcome),
        }
    }
}

/// Why a set of records was not written.
pub enum SaveError {
    EmptyList,
}

impl OTPs {
    /// Starts writing the set to `pass`; an empty set is refused.
    pub fn save(&self, pass: &Pass) -> (r: Result<BatchStep, SaveError>)
        ensures
            r is Err <==> self@.len() == 0,
            r matches Ok(step) ==> step matches BatchStep::Write { index, command } && index == 0
                && command_for(command, *pass, self@[0]),
    {
        if self.is_empty() {
            Err(SaveError::EmptyList)
        } else {
            Ok(pass.add_entries(self))
        }
    }
}

} // verus!
