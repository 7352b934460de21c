//! OTP records and the set of records taken from one input file.

use vstd::prelude::*;

verus! {

/// One credential entry of the input.
pub struct OTP {
    pub id: Option<usize>,
    pub name: String,
    pub secret: String,
    pub issuer: Option<String>,
    pub url: String,
}

/// Why a record is not valid.
#[derive(PartialEq, Eq, Structural, Clone, Copy, Debug)]
pub enum InvalidReason {
    EmptySecret,
    EmptyUrl,
    EmptyName,
    InvalidUri,
}

/// The first check that `o` fails, in the order secret, URI, name, validator;
/// `None` when it passes them all.
pub open spec fn invalid_reason(o: OTP, uri_accepted: bool) -> Option<InvalidReason> {
    if o.secret@.len() == 0 {
        Some(InvalidReason::EmptySecret)
    } else if o.url@.len() == 0 {
        Some(InvalidReason::EmptyUrl)
    } else if o.name@.len() == 0 {
        Some(InvalidReason::EmptyName)
    } else if !uri_accepted {
        Some(InvalidReason::InvalidUri)
    } else {
        None
    }
}

/// A record is valid when its name, secret and URI are non-empty and the
/// validator accepted its URI.
pub open spec fn entry_valid(o: OTP, uri_accepted: bool) -> bool {
    o.name@.len() > 0 && o.secret@.len() > 0 && o.url@.len() > 0 && uri_accepted
}

/// `o` carrying the 1-based position `pos`.
pub open spec fn positioned(o: OTP, pos: usize) -> OTP {
    OTP { id: Some(pos), ..o }
}

impl OTP {
    /// The position given at parse time, if any.
    pub open spec fn position(&self) -> Option<usize> {
        self.id
    }

    /// A record built by hand; it has no position.
    pub fn new(name: String, secret: String, issuer: Option<String>, url: String) -> (r: OTP)
        ensures
            r.id is None,
            r.name == name,
            r.secret == secret,
            r.issuer == issuer,
            r.url == url,
    {
        OTP { id: None, name, secret, issuer, url }
    }

    /// The position given at parse time, if any.
    pub fn get_position(&self) -> (r: Option<usize>)
        ensures
            r == self.id,
    {
        self.id
    }

    /// Checks the record, given whether the validator accepted its URI.
    pub fn is_valid(&self, uri_accepted: bool) -> (r: Result<(), InvalidReason>)
        ensures
            r is Ok <==> entry_valid(*self, uri_accepted),
            r matches Err(reason) ==> invalid_reason(*self, uri_accepted) == Some(reason),
            r is Ok ==> invalid_reason(*self, uri_accepted) is None,
    {
        if self.secret.as_str().is_empty() {
            Err(InvalidReason::EmptySecret)
        } else if self.url.as_str().is_empty() {
            Err(InvalidReason::EmptyUrl)
        } else if self.name.as_str().is_empty() {
            Err(InvalidReason::EmptyName)
        } else if !uri_accepted {
            Err(InvalidReason::InvalidUri)
        } else {
            Ok(())
        }
    }

    /// A copy of the record at position `pos`.
    fn copy_at(&self, pos: usize) -> (r: OTP)
        ensures
            r == positioned(*self, pos),
    {
        let issuer = match &self.issuer {
            Some(i) => Some(i.clone()),
            None => None,
        };
        OTP {
            id: Some(pos),
            name: self.name.clone(),
            secret: self.secret.clone(),
            issuer,
            url: self.url.clone(),
        }
    }

    /// A copy of the record.
    pub fn duplicate(&self) -> (r: OTP)
        ensures
            r == *self,
    {
        let issuer = match &self.issuer {
            Some(i) => Some(i.clone()),
            None => None,
        };
        OTP {
            id: self.id,
            name: self.name.clone(),
            secret: self.secret.clone(),
            issuer,
            url: self.url.clone(),
        }
    }
}

/// A row of the input file that was skipped, and why.
pub enum RowWarning {
    /// The row could not be read as a record; the cause is given.
    Malformed { position: usize, cause: String },
    /// The row was read but the record is not valid.
    Invalid { position: usize, reason: InvalidReason, entry: OTP },
}

/// A parse that kept no record.
pub enum ParseError {
    NoValidRecords { path: String },
}

/// Whether row `row` is kept, given the validator's verdict on its URI.
pub open spec fn row_kept(row: Result<OTP, String>, uri_accepted: bool) -> bool {
    match row {
        Ok(o) => entry_valid(o, uri_accepted),
        Err(_) => false,
    }
}

/// The records kept from the first `n` rows, in order, each at its row's
/// 1-based position.
pub open spec fn kept_rows(rows: Seq<Result<OTP, String>>, oks: Seq<bool>, n: nat) -> Seq<OTP>
    decreases n,
{
    if n == 0 {
        Seq::empty()
    } else {
        let prev = kept_rows(rows, oks, (n - 1) as nat);
        match rows[n - 1] {
            Ok(o) => if entry_valid(o, oks[n - 1]) {
                prev.push(positioned(o, n as usize))
            } else {
                prev
            },
            Err(_) => prev,
        }
    }
}

/// The warnings for the first `n` rows, in order.
pub open spec fn row_warnings(
    rows: Seq<Result<OTP, String>>,
    oks: Seq<bool>,
    n: nat,
) -> Seq<RowWarning>
    decreases n,
{
    if n == 0 {
        Seq::empty()
    } else {
        let prev = row_warnings(rows, oks, (n - 1) as nat);
        match rows[n - 1] {
            Ok(o) => match invalid_reason(o, oks[n - 1]) {
                Some(reason) => prev.push(
                    RowWarning::Invalid {
                        position: n as usize,
                        reason,
                        entry: positioned(o, n as usize),
                    },
                ),
                None => prev,
            },
            Err(cause) => prev.push(RowWarning::Malformed { position: n as usize, cause }),
        }
    }
}

/// The number of rows among the first `n` that are skipped.
pub open spec fn skipped_count(rows: Seq<Result<OTP, String>>, oks: Seq<bool>, n: nat) -> nat
    decreases n,
{
    if n == 0 {
        0
    } else {
        skipped_count(rows, oks, (n - 1) as nat) + if row_kept(rows[n - 1], oks[n - 1]) {
            0nat
        } else {
            1nat
        }
    }
}

/// `rec` carries the position of one of the first `n` rows, that row was read,
/// and `rec` is valid under the verdict on that row's URI.
pub open spec fn record_from_row(
    rec: OTP,
    rows: Seq<Result<OTP, String>>,
    oks: Seq<bool>,
    n: nat,
) -> bool {
    match rec.id {
        Some(p) => 1 <= p <= n && rows[p - 1] is Ok && entry_valid(rec, oks[p - 1]),
        None => false,
    }
}

/// The ordered set of valid records of one import.
pub struct OTPs {
    data: Vec<OTP>,
}

impl View for OTPs {
    type V = Seq<OTP>;

    closed spec fn view(&self) -> Seq<OTP> {
        self.data@
    }
}

impl OTPs {
    /// A set holding copies of `records`, in order.
    pub fn from_records(records: &Vec<OTP>) -> (r: OTPs)
        ensures
            r@ == records@,
    {
        let mut data: Vec<OTP> = Vec::new();
        let mut i: usize = 0;
        while i < records.len()
            invariant
                i <= records.len(),
                data@ == records@.subrange(0, i as int),
            decreases records.len() - i,
        {
            data.push(records[i].duplicate());
            i = i + 1;
            assert(data@ =~= records@.subrange(0, i as int));
        }
        assert(data@ =~= records@);
        OTPs { data }
    }

    /// Appends a record built by hand.
    pub fn add(&mut self, otp: OTP)
        ensures
            final(self)@ == old(self)@.push(otp),
    {
        self.data.push(otp);
    }

    pub fn is_empty(&self) -> (r: bool)
        ensures
            r == (self@.len() == 0),
    {
        self.data.len() == 0
    }

    pub fn len(&self) -> (r: usize)
        ensures
            r == self@.len(),
    {
        self.data.len()
    }

    pub fn get_data(&self) -> (r: &Vec<OTP>)
        ensures
            r@ == self@,
    {
        &self.data
    }
}


impl OTPs {
    /// The set of records of the input file at `path`, built as `read_file`
    /// fills one: it fails, naming `path`, when no row is kept.
    pub fn new(
        path: &str,
        rows: &Vec<Result<OTP, String>>,
        uri_accepted: &Vec<bool>,
        warnings: &mut Vec<RowWarning>,
    ) -> (r: Result<OTPs, ParseError>)
        requires
            rows@.len() == uri_accepted@.len(),
        ensures
            r matches Ok(set) ==> set@ == kept_rows(rows@, uri_accepted@, rows@.len()),
            r is Err <==> forall|i: int|
                0 <= i < rows@.len() ==> !row_kept(#[trigger] rows@[i], uri_accepted@[i]),
            r matches Err(ParseError::NoValidRecords { path: p }) ==> p@ == path@,
            final(warnings)@ == old(warnings)@ + row_warnings(
                rows@,
                uri_accepted@,
                rows@.len(),
            ),
    {
        let mut set = OTPs { data: Vec::new() };
        match set.read_file(path, rows, uri_accepted, warnings) {
            Ok(()) => Ok(set),
            Err(e) => Err(e),
        }
    }
}

impl OTPs {
    /// Replaces the contents with the records of the input file at `path`.
    ///
    /// `rows` holds the file's rows in order, each read as a record or, where
    /// that failed, the cause; `uri_accepted[i]` is the validator's verdict on
    /// the URI of row `i`. A row is kept when it was read and its record is
    /// valid; it then carries its 1-based row position. Each skipped row adds a
    /// warning to `warnings`. With no row kept, the parse fails naming `path`.
    pub fn read_file(
        &mut self,
        path: &str,
        rows: &Vec<Result<OTP, String>>,
        uri_accepted: &Vec<bool>,
        warnings: &mut Vec<RowWarning>,
    ) -> (r: Result<(), ParseError>)
        requires
            rows@.len() == uri_accepted@.len(),
        ensures
            final(self)@ == kept_rows(rows@, uri_accepted@, rows@.len()),
            final(warnings)@ == old(warnings)@ + row_warnings(
                rows@,
                uri_accepted@,
                rows@.len(),
            ),
            r is Ok <==> final(self)@.len() > 0,
            r is Err <==> forall|i: int|
                0 <= i < rows@.len() ==> !row_kept(#[trigger] rows@[i], uri_accepted@[i]),
            r matches Err(ParseError::NoValidRecords { path: p }) ==> p@ == path@,
            forall|j: int|
                0 <= j < final(self)@.len() ==> record_from_row(
                    #[trigger] final(self)@[j],
                    rows@,
                    uri_accepted@,
                    rows@.len(),
                ),
    {
        self.data = Vec::new();
        let mut i: usize = 0;
        while i < rows.len()
            invariant
                i <= rows@.len(),
                rows@.len() == uri_accepted@.len(),
                self.data@ == kept_rows(rows@, uri_accepted@, i as nat),
                warnings@ == old(warnings)@ + row_warnings(rows@, uri_accepted@, i as nat),
            decreases rows@.len() - i,
        {
            let pos: usize = i + 1;
            match &rows[i] {
                Ok(o) => match o.is_valid(uri_accepted[i]) {
                    Ok(()) => {
                        self.data.push(o.copy_at(pos));
                    },
                    Err(reason) => {
                        warnings.push(
                            RowWarning::Invalid { position: pos, reason, entry: o.copy_at(pos) },
                        );
                    },
                },
                Err(cause) => {
                    warnings.push(RowWarning::Malformed { position: pos, cause: cause.clone() });
                },
            }
            i = pos;
            assert(warnings@ =~= old(warnings)@ + row_warnings(rows@, uri_accepted@, i as nat));
        }
        proof {
            lemma_kept_rows_valid(rows@, uri_accepted@, rows@.len());
            lemma_nothing_kept(rows@, uri_accepted@, rows@.len());
        }
        if self.data.len() == 0 {
            Err(ParseError::NoValidRecords { path: String::from_str(path) })
        } else {
            Ok(())
        }
    }
}

/// Every record kept from the first `n` rows is valid under the verdict on its
/// own row, and its position names that row.
pub proof fn lemma_kept_rows_valid(rows: Seq<Result<OTP, String>>, oks: Seq<bool>, n: nat)
    requires
        n <= rows.len(),
        rows.len() == oks.len(),
        rows.len() <= usize::MAX,
    ensures
        forall|j: int|
            0 <= j < kept_rows(rows, oks, n).len() ==> record_from_row(
                #[trigger] kept_rows(rows, oks, n)[j],
                rows,
                oks,
                n,
            ),
    decreases n,
{
    if n > 0 {
        lemma_kept_rows_valid(rows, oks, (n - 1) as nat);
        let prev = kept_rows(rows, oks, (n - 1) as nat);
        let cur = kept_rows(rows, oks, n);
        assert forall|j: int| 0 <= j < cur.len() implies record_from_row(
            #[trigger] cur[j],
            rows,
            oks,
            n,
        ) by {
            if j < prev.len() {
                assert(cur[j] == prev[j]);
                assert(record_from_row(prev[j], rows, oks, (n - 1) as nat));
            }
        }
    }
}

/// The records kept and the rows skipped together account for every row.
pub proof fn lemma_kept_and_skipped(rows: Seq<Result<OTP, String>>, oks: Seq<bool>, n: nat)
    requires
        n <= rows.len(),
        rows.len() == oks.len(),
    ensures
        kept_rows(rows, oks, n).len() + skipped_count(rows, oks, n) == n,
    decreases n,
{
    if n > 0 {
        lemma_kept_and_skipped(rows, oks, (n - 1) as nat);
    }
}

/// A row whose name, secret or URI is empty is skipped: putting such a record
/// in place of a kept row removes that row's record and nothing else, so one
/// record fewer is kept and the others keep their order and positions; and
/// the count of records kept is the count of rows less the count of skipped
/// rows.
pub proof fn lemma_empty_field_row_excluded(
    rows: Seq<Result<OTP, String>>,
    oks: Seq<bool>,
    i: int,
    bad: OTP,
)
    requires
        rows.len() == oks.len(),
        0 <= i < rows.len(),
        bad.name@.len() == 0 || bad.secret@.len() == 0 || bad.url@.len() == 0,
    ensures
        !row_kept(Ok(bad), oks[i]),
        kept_rows(rows, oks, rows.len()).len() == rows.len() - skipped_count(rows, oks, rows.len()),
        row_kept(rows[i], oks[i]) ==> kept_rows(rows.update(i, Ok(bad)), oks, rows.len())
            == kept_rows(rows, oks, rows.len()).remove(kept_rows(rows, oks, i as nat).len() as int),
        row_kept(rows[i], oks[i]) ==> kept_rows(rows.update(i, Ok(bad)), oks, rows.len()).len() + 1
            == kept_rows(rows, oks, rows.len()).len(),
{
    lemma_kept_and_skipped(rows, oks, rows.len());
    if row_kept(rows[i], oks[i]) {
        lemma_skipped_row_removes_its_record(rows, oks, i, Ok(bad), rows.len());
        lemma_kept_prefix_grows(rows, oks, (i + 1) as nat, rows.len());
    }
}

/// No record is kept from the first `n` rows exactly when none of them is
/// kept on its own: a file without a valid row yields no record.
pub proof fn lemma_nothing_kept(rows: Seq<Result<OTP, String>>, oks: Seq<bool>, n: nat)
    requires
        n <= rows.len(),
        rows.len() == oks.len(),
    ensures
        kept_rows(rows, oks, n).len() == 0 <==> forall|i: int|
            0 <= i < n ==> !row_kept(#[trigger] rows[i], oks[i]),
    decreases n,
{
    if n > 0 {
        lemma_nothing_kept(rows, oks, (n - 1) as nat);
        lemma_kept_and_skipped(rows, oks, (n - 1) as nat);
        if kept_rows(rows, oks, n).len() == 0 {
            assert forall|i: int| 0 <= i < n implies !row_kept(#[trigger] rows[i], oks[i]) by {
                if i == n - 1 {
                    assert(!row_kept(rows[n - 1], oks[n - 1]));
                } else {
                    assert(kept_rows(rows, oks, (n - 1) as nat).len() == 0);
                }
            }
        }
    }
}

/// Rows before `i` are read the same whatever stands at row `i`.
proof fn lemma_kept_before_update(
    rows: Seq<Result<OTP, String>>,
    oks: Seq<bool>,
    i: int,
    row: Result<OTP, String>,
    n: nat,
)
    requires
        rows.len() == oks.len(),
        0 <= i < rows.len(),
        n <= i,
    ensures
        kept_rows(rows.update(i, row), oks, n) == kept_rows(rows, oks, n),
    decreases n,
{
    if n > 0 {
        lemma_kept_before_update(rows, oks, i, row, (n - 1) as nat);
        assert(rows.update(i, row)[n - 1] == rows[n - 1]);
    }
}

/// Putting a skipped row in place of kept row `i` removes that row's record
/// from the records kept, and leaves the others in their order and with their
/// positions.
pub proof fn lemma_skipped_row_removes_its_record(
    rows: Seq<Result<OTP, String>>,
    oks: Seq<bool>,
    i: int,
    bad: Result<OTP, String>,
    n: nat,
)
    requires
        rows.len() == oks.len(),
        0 <= i < n <= rows.len(),
        row_kept(rows[i], oks[i]),
        !row_kept(bad, oks[i]),
    ensures
        kept_rows(rows.update(i, bad), oks, n) == kept_rows(rows, oks, n).remove(
            kept_rows(rows, oks, i as nat).len() as int,
        ),
    decreases n,
{
    let upd = rows.update(i, bad);
    let k = kept_rows(rows, oks, i as nat).len() as int;
    if n == i + 1 {
        lemma_kept_before_update(rows, oks, i, bad, i as nat);
        assert(upd[i] == bad);
        match bad {
            Ok(o) => assert(!entry_valid(o, oks[i])),
            Err(_) => {},
        }
        assert(kept_rows(upd, oks, n) == kept_rows(rows, oks, i as nat));
        assert(kept_rows(rows, oks, n) == kept_rows(rows, oks, i as nat).push(
            positioned(rows[i]->Ok_0, n as usize),
        ));
        assert(kept_rows(rows, oks, n).remove(k) =~= kept_rows(rows, oks, i as nat));
    } else {
        let m = (n - 1) as nat;
        lemma_skipped_row_removes_its_record(rows, oks, i, bad, m);
        lemma_kept_prefix_grows(rows, oks, (i + 1) as nat, m);
        assert(upd[n - 1] == rows[n - 1]);
        let prev = kept_rows(rows, oks, m);
        assert(k < prev.len());
        match rows[n - 1] {
            Ok(o) => {
                if entry_valid(o, oks[n - 1]) {
                    assert(prev.push(positioned(o, n as usize)).remove(k) =~= prev.remove(k).push(
                        positioned(o, n as usize),
                    ));
                }
            },
            Err(_) => {},
        }
    }
}

/// Records kept from more rows are at least as many.
proof fn lemma_kept_prefix_grows(rows: Seq<Result<OTP, String>>, oks: Seq<bool>, a: nat, b: nat)
    requires
        a <= b <= rows.len(),
        rows.len() == oks.len(),
    ensures
        kept_rows(rows, oks, a).len() <= kept_rows(rows, oks, b).len(),
    decreases b,
{
    if a < b {
        lemma_kept_prefix_grows(rows, oks, a, (b - 1) as nat);
    }
}

} // verus!
