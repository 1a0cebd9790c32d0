//! The vocabulary every file import speaks: which source a blob came from, and what happened
//! to it.
//!
//! The differences between importers that are real live in [`ImportSource`]'s methods,
//! exhaustively matched; a new importer is a compile error at each question it has to answer.

use vstd::prelude::*;

use crate::accounts::AccountKind;
use crate::text::{append_decimal, int_decimal, join2, str_eq};

verus! {

/// The largest upload any importer will look at, checked once before a parser is handed the
/// bytes. The same number as the HTTP body cap.
pub const MAX_UPLOAD_BYTES: usize = 16 * 1024 * 1024;

/// Which importer a blob belongs to.
#[derive(Debug, Clone, Copy, PartialEq, Eq, Structural, Hash)]
pub enum ImportSource {
    /// ASB "Export transactions": a `.csv`, or a `.zip` of them spanning several accounts.
    AsbCsv,
    /// myIR "TAP SLS Transactions": an `.xlsx`, or a `.zip` of them covering one loan.
    MyirSls,
    /// A Sharesies export `.zip`: wallet transactions, holdings and dividends.
    SharesiesZip,
    /// A plain transaction `.csv` someone assembled themselves. The fallback, tried last.
    CsvUpload,
}

/// How much of an import a live feed on the same account is entitled to take back.
#[derive(Debug, Clone, Copy, PartialEq, Eq, Structural)]
pub enum CutoverRule {
    /// Nothing else posts what this source posts: nothing is held back.
    Never,
    /// Held back from wherever another feed's coverage begins; a feed that is connected but
    /// has never posted is a refusal, not a guess.
    Strict,
    /// Held back the same way, but a silent feed is taken at face value.
    Lenient,
}

impl ImportSource {
    /// The stored and wire name of each source.
    pub open spec fn text(self) -> Seq<char> {
        match self {
            ImportSource::AsbCsv => "asb_csv"@,
            ImportSource::MyirSls => "myir_sls"@,
            ImportSource::SharesiesZip => "sharesies_zip"@,
            ImportSource::CsvUpload => "csv_upload"@,
        }
    }

    /// The source whose wire name is `s`, if any.
    pub open spec fn parse_text(s: Seq<char>) -> Option<ImportSource> {
        if s == "asb_csv"@ {
            Some(ImportSource::AsbCsv)
        } else if s == "myir_sls"@ {
            Some(ImportSource::MyirSls)
        } else if s == "sharesies_zip"@ {
            Some(ImportSource::SharesiesZip)
        } else if s == "csv_upload"@ {
            Some(ImportSource::CsvUpload)
        } else {
            None
        }
    }

    /// The stem of the provider tag each source's rows carry. These strings are already
    /// written into existing ledgers; they are history, not a choice.
    pub open spec fn stem(self) -> Seq<char> {
        match self {
            ImportSource::AsbCsv => "asb"@,
            ImportSource::MyirSls => "myir"@,
            ImportSource::SharesiesZip => "sharesies"@,
            ImportSource::CsvUpload => "csv-upload"@,
        }
    }

    /// The cutover rule of each source.
    pub open spec fn rule(self) -> CutoverRule {
        match self {
            ImportSource::AsbCsv | ImportSource::CsvUpload => CutoverRule::Strict,
            ImportSource::MyirSls => CutoverRule::Lenient,
            ImportSource::SharesiesZip => CutoverRule::Never,
        }
    }

    /// Whether an account of `kind` takes this source's files.
    pub open spec fn takes(self, kind: AccountKind) -> bool {
        match self {
            ImportSource::AsbCsv => match kind {
                AccountKind::Cash
                | AccountKind::Bank
                | AccountKind::Savings
                | AccountKind::CreditCard
                | AccountKind::RevolvingCredit => true,
                _ => false,
            },
            ImportSource::MyirSls => kind == AccountKind::StudentLoan,
            ImportSource::SharesiesZip => kind == AccountKind::Brokerage,
            ImportSource::CsvUpload => true,
        }
    }

    /// The stored/wire representation.
    pub fn as_str(self) -> (r: &'static str)
        ensures
            r@ == self.text(),
    {
        match self {
            ImportSource::AsbCsv => "asb_csv",
            ImportSource::MyirSls => "myir_sls",
            ImportSource::SharesiesZip => "sharesies_zip",
            ImportSource::CsvUpload => "csv_upload",
        }
    }

    /// What to call this source in a sentence a person reads.
    pub fn label(self) -> (r: &'static str)
        ensures
            r@ == match self {
                ImportSource::AsbCsv => "ASB transaction export"@,
                ImportSource::MyirSls => "myIR student-loan export"@,
                ImportSource::SharesiesZip => "Sharesies export"@,
                ImportSource::CsvUpload => "transaction CSV"@,
            },
    {
        match self {
            ImportSource::AsbCsv => "ASB transaction export",
            ImportSource::MyirSls => "myIR student-loan export",
            ImportSource::SharesiesZip => "Sharesies export",
            ImportSource::CsvUpload => "transaction CSV",
        }
    }

    /// The provider stem this source writes under: every row it imports carries
    /// `{stem}#{account id}`, which is what makes an import findable and undoable.
    pub fn tag_stem(self) -> (r: &'static str)
        ensures
            r@ == self.stem(),
    {
        match self {
            ImportSource::AsbCsv => "asb",
            ImportSource::MyirSls => "myir",
            ImportSource::SharesiesZip => "sharesies",
            ImportSource::CsvUpload => "csv-upload",
        }
    }

    /// The full provider tag for one account.
    pub fn provider_tag(self, account_id: i64) -> (r: String)
        ensures
            r@ == self.stem() + "#"@ + int_decimal(account_id as int),
    {
        let mut r = join2(self.tag_stem(), "#");
        append_decimal(&mut r, account_id);
        r
    }

    /// How far this source's rows must give way to a live feed on the same account.
    pub fn cutover_rule(self) -> (r: CutoverRule)
        ensures
            r == self.rule(),
    {
        match self {
            ImportSource::AsbCsv | ImportSource::CsvUpload => CutoverRule::Strict,
            ImportSource::MyirSls => CutoverRule::Lenient,
            ImportSource::SharesiesZip => CutoverRule::Never,
        }
    }

    /// Whether an upload of exactly one thing may be routed to the only account that accepts
    /// this source when nothing identified it: only where the export cannot identify itself.
    pub fn routes_by_sole_candidate(self) -> (r: bool)
        ensures
            r == (self == ImportSource::MyirSls || self == ImportSource::SharesiesZip),
    {
        match self {
            ImportSource::MyirSls | ImportSource::SharesiesZip => true,
            ImportSource::AsbCsv | ImportSource::CsvUpload => false,
        }
    }

    /// Whether this source's file makes sense for an account of this kind.
    pub fn accepts(self, kind: AccountKind) -> (r: bool)
        ensures
            r == self.takes(kind),
    {
        match self {
            ImportSource::AsbCsv => match kind {
                AccountKind::Cash
                | AccountKind::Bank
                | AccountKind::Savings
                | AccountKind::CreditCard
                | AccountKind::RevolvingCredit => true,
                AccountKind::Mortgage
                | AccountKind::StudentLoan
                | AccountKind::Loan
                | AccountKind::Liability
                | AccountKind::Vehicle
                | AccountKind::RealEstate
                | AccountKind::Asset
                | AccountKind::SharesNz
                | AccountKind::SharesUs
                | AccountKind::SharesPrivate
                | AccountKind::Brokerage
                | AccountKind::Crypto => false,
            },
            ImportSource::MyirSls => match kind {
                AccountKind::StudentLoan => true,
                _ => false,
            },
            ImportSource::SharesiesZip => match kind {
                AccountKind::Brokerage => true,
                _ => false,
            },
            ImportSource::CsvUpload => true,
        }
    }

    /// Read a source back from its wire name. Unknown text is an error that quotes it.
    pub fn from_str(s: &str) -> (r: Result<ImportSource, String>)
        ensures
            match Self::parse_text(s@) {
                Some(k) => r == Ok::<ImportSource, String>(k),
                None => r matches Err(m) && m@ == "unknown import source '"@ + s@ + "'"@,
            },
    {
        if str_eq(s, "asb_csv") {
            Ok(ImportSource::AsbCsv)
        } else if str_eq(s, "myir_sls") {
            Ok(ImportSource::MyirSls)
        } else if str_eq(s, "sharesies_zip") {
            Ok(ImportSource::SharesiesZip)
        } else if str_eq(s, "csv_upload") {
            Ok(ImportSource::CsvUpload)
        } else {
            let mut m = join2("unknown import source '", s);
            m.append("'");
            Err(m)
        }
    }
}

/// Every source reads back from its wire name as itself.
pub proof fn lemma_import_source_round_trip(k: ImportSource)
    ensures
        ImportSource::parse_text(k.text()) == Some(k),
{
    reveal_strlit("asb_csv");
    reveal_strlit("myir_sls");
    reveal_strlit("sharesies_zip");
    reveal_strlit("csv_upload");
    assert("asb_csv"@.len() == 7);
    assert("myir_sls"@.len() == 8);
    assert("sharesies_zip"@.len() == 13);
    assert("csv_upload"@.len() == 10);
}

/// No two sources share a tag stem, so one source's undo can never delete another's rows.
pub proof fn lemma_tag_stems_distinct(a: ImportSource, b: ImportSource)
    ensures
        a.stem() == b.stem() ==> a == b,
{
    reveal_strlit("asb");
    reveal_strlit("myir");
    reveal_strlit("sharesies");
    reveal_strlit("csv-upload");
    assert("asb"@.len() == 3);
    assert("myir"@.len() == 4);
    assert("sharesies"@.len() == 9);
    assert("csv-upload"@.len() == 10);
}

/// The fallback source takes a file for an account of every kind, so every blob is routable
/// somewhere.
pub proof fn lemma_fallback_accepts_every_kind(kind: AccountKind)
    ensures
        ImportSource::CsvUpload.takes(kind),
{
}

/// How an item in an upload was matched to an account.
#[derive(Debug, Clone, Copy, PartialEq, Eq, Structural)]
pub enum ImportMatch {
    /// The request named the account outright. The only certainty here.
    Assigned,
    /// This account already holds rows this source imported for that same source account.
    PreviousImport,
    /// The account's stored account number is that number.
    AccountNumber,
    /// The account's name contains that number. A hint, not proof.
    AccountName,
    /// The only account of a kind this source accepts.
    OnlyCandidate,
    /// The export names a person, and exactly one account this source accepts is theirs.
    AccountOwner,
    /// The item's own rows match the transactions this account already holds.
    TransactionHistory,
}

impl ImportMatch {
    /// The wire name of each match.
    pub open spec fn text(self) -> Seq<char> {
        match self {
            ImportMatch::Assigned => "assigned"@,
            ImportMatch::PreviousImport => "previous_import"@,
            ImportMatch::AccountNumber => "account_number"@,
            ImportMatch::AccountName => "account_name"@,
            ImportMatch::OnlyCandidate => "only_candidate"@,
            ImportMatch::AccountOwner => "account_owner"@,
            ImportMatch::TransactionHistory => "transaction_history"@,
        }
    }

    pub fn as_str(self) -> (r: &'static str)
        ensures
            r@ == self.text(),
    {
        match self {
            ImportMatch::Assigned => "assigned",
            ImportMatch::PreviousImport => "previous_import",
            ImportMatch::AccountNumber => "account_number",
            ImportMatch::AccountName => "account_name",
            ImportMatch::OnlyCandidate => "only_candidate",
            ImportMatch::AccountOwner => "account_owner",
            ImportMatch::TransactionHistory => "transaction_history",
        }
    }
}

/// Why one thing in an upload could not be imported, where the obstacle is a conflict to be
/// resolved.
#[derive(Debug, Clone, Copy, PartialEq, Eq, Structural)]
pub enum ImportBlockReason {
    /// A connected, enabled feed on the target account has posted nothing yet.
    UnsyncedFeed,
    /// A date already on the account will not parse, so the cutover cannot be derived.
    UnreadableLedgerDate,
}

impl ImportBlockReason {
    pub fn as_str(self) -> (r: &'static str)
        ensures
            r@ == match self {
                ImportBlockReason::UnsyncedFeed => "unsynced_feed"@,
                ImportBlockReason::UnreadableLedgerDate => "unreadable_ledger_date"@,
            },
    {
        match self {
            ImportBlockReason::UnsyncedFeed => "unsynced_feed",
            ImportBlockReason::UnreadableLedgerDate => "unreadable_ledger_date",
        }
    }

    /// Whether stating the cutover date outright is a legitimate way out of this block: only
    /// for a feed that has never spoken.
    pub fn resolvable_by_stating_cutover(self) -> (r: bool)
        ensures
            r == (self == ImportBlockReason::UnsyncedFeed),
    {
        match self {
            ImportBlockReason::UnsyncedFeed => true,
            ImportBlockReason::UnreadableLedgerDate => false,
        }
    }
}

/// A feed standing between one item and its account, named with its id.
#[derive(Debug, Clone)]
pub struct BlockingFeed {
    pub provider_id: i64,
    pub name: String,
}

/// One item's unresolved conflict: nothing of it was written, and here is what it would take.
#[derive(Debug, Clone)]
pub struct ImportBlock {
    pub reason: ImportBlockReason,
    pub message: String,
    /// The feeds waiting to post. Empty for every reason but an unsynced feed.
    pub feeds: Vec<BlockingFeed>,
}

/// Which kind of record an [`ImportExtra`] counts.
#[derive(Debug, Clone, Copy, PartialEq, Eq, Structural)]
pub enum ImportExtraKind {
    Holdings,
    Dividends,
}

/// Non-transaction records one item wrote.
#[derive(Debug, Clone)]
pub struct ImportExtra {
    pub kind: ImportExtraKind,
    pub imported: i64,
    pub skipped: i64,
}

/// Whether the ledger adds up, for a source whose export states a balance to check against.
#[derive(Debug, Clone)]
pub struct Reconciliation {
    pub ledger_balance_minor: Option<i64>,
    pub account_balance_minor: Option<i64>,
    pub implied_opening_minor: Option<i64>,
    pub opening_balance_minor: Option<i64>,
    pub opening_balance_as_of: Option<String>,
    pub ledger_sum_minor: Option<i64>,
}

/// What happened to one thing inside an upload.
#[derive(Debug, Clone)]
pub struct ImportItem {
    pub source_account: String,
    pub account_id: Option<i64>,
    pub account_name: Option<String>,
    pub matched_by: Option<ImportMatch>,
    pub sources: Vec<String>,
    pub label: Option<String>,
    pub covered_from: Option<String>,
    pub covered_to: Option<String>,
    pub rows_total: i64,
    pub would_import: i64,
    pub imported: i64,
    pub skipped: i64,
    pub held_back: i64,
    pub cutover: Option<String>,
    pub reconciliation: Option<Reconciliation>,
    pub blocked: Option<ImportBlock>,
    pub extras: Vec<ImportExtra>,
    pub warnings: Vec<String>,
}

/// The result of one upload, whether a preview or a commit.
#[derive(Debug, Clone)]
pub struct ImportResult {
    pub dry_run: bool,
    pub source: ImportSource,
    pub items: Vec<ImportItem>,
    pub warnings: Vec<String>,
}

/// One recorded import: what an upload did to one account, and when.
#[derive(Debug, Clone)]
pub struct ImportRecord {
    pub id: i64,
    pub account_id: i64,
    pub source: ImportSource,
    pub source_account: Option<String>,
    pub filenames: Vec<String>,
    pub imported: i64,
    pub skipped: i64,
    pub held_back: i64,
    pub covered_from: Option<String>,
    pub covered_to: Option<String>,
    pub cutover: Option<String>,
    pub created_at: String,
}

/// The result of undoing one source's import on one account.
#[derive(Debug, Clone)]
pub struct ImportUndoResult {
    pub deleted: i64,
    pub extras: Vec<ImportExtra>,
    pub warnings: Vec<String>,
}

} // verus!
