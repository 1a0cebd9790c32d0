//! Per-person income streams: what someone earns, when it lands, and what is left after tax.
//!
//! Which take-home rate wins is resolution logic that lives with the forecast; this module
//! holds the shapes and the small rules that belong to them.

use vstd::prelude::*;

use crate::iso_date::IsoDate;
use crate::money::Money;
use crate::text::{join2, str_eq};

verus! {

/// The statutory scales a gross figure can be converted under.
#[derive(Debug, Clone, Copy, PartialEq, Eq, Structural)]
pub enum TaxScaleId {
    /// New Zealand PAYE, ACC, KiwiSaver and student loan.
    NzPaye,
}

/// How often a stream pays.
#[derive(Debug, Clone, Copy, PartialEq, Eq, Structural)]
pub enum PayFrequency {
    Weekly,
    Fortnightly,
    FourWeekly,
    Monthly,
    Quarterly,
    Annual,
}

/// How a frequency advances from one payment to the next.
#[derive(Debug, Clone, Copy, PartialEq, Eq, Structural)]
pub enum PayStep {
    Days(i64),
    Months(i64),
}

impl PayFrequency {
    /// The stored text of each frequency.
    pub open spec fn text(self) -> Seq<char> {
        match self {
            PayFrequency::Weekly => "weekly"@,
            PayFrequency::Fortnightly => "fortnightly"@,
            PayFrequency::FourWeekly => "four_weekly"@,
            PayFrequency::Monthly => "monthly"@,
            PayFrequency::Quarterly => "quarterly"@,
            PayFrequency::Annual => "annual"@,
        }
    }

    /// The frequency whose stored text is `s`, if any.
    pub open spec fn parse_text(s: Seq<char>) -> Option<PayFrequency> {
        if s == "weekly"@ {
            Some(PayFrequency::Weekly)
        } else if s == "fortnightly"@ {
            Some(PayFrequency::Fortnightly)
        } else if s == "four_weekly"@ {
            Some(PayFrequency::FourWeekly)
        } else if s == "monthly"@ {
            Some(PayFrequency::Monthly)
        } else if s == "quarterly"@ {
            Some(PayFrequency::Quarterly)
        } else if s == "annual"@ {
            Some(PayFrequency::Annual)
        } else {
            None
        }
    }

    pub fn as_str(self) -> (r: &'static str)
        ensures
            r@ == self.text(),
    {
        match self {
            PayFrequency::Weekly => "weekly",
            PayFrequency::Fortnightly => "fortnightly",
            PayFrequency::FourWeekly => "four_weekly",
            PayFrequency::Monthly => "monthly",
            PayFrequency::Quarterly => "quarterly",
            PayFrequency::Annual => "annual",
        }
    }

    /// Read a stored frequency back. Unknown text is an error that quotes it.
    pub fn from_str(s: &str) -> (r: Result<PayFrequency, String>)
        ensures
            match Self::parse_text(s@) {
                Some(k) => r == Ok::<PayFrequency, String>(k),
                None => r matches Err(m) && m@ == "unknown pay frequency '"@ + s@ + "'"@,
            },
    {
        if str_eq(s, "weekly") {
            Ok(PayFrequency::Weekly)
        } else if str_eq(s, "fortnightly") {
            Ok(PayFrequency::Fortnightly)
        } else if str_eq(s, "four_weekly") {
            Ok(PayFrequency::FourWeekly)
        } else if str_eq(s, "monthly") {
            Ok(PayFrequency::Monthly)
        } else if str_eq(s, "quarterly") {
            Ok(PayFrequency::Quarterly)
        } else if str_eq(s, "annual") {
            Ok(PayFrequency::Annual)
        } else {
            let mut m = join2("unknown pay frequency '", s);
            m.append("'");
            Err(m)
        }
    }

    /// How each frequency advances from one payment to the next.
    pub open spec fn stride(self) -> PayStep {
        match self {
            PayFrequency::Weekly => PayStep::Days(7),
            PayFrequency::Fortnightly => PayStep::Days(14),
            PayFrequency::FourWeekly => PayStep::Days(28),
            PayFrequency::Monthly => PayStep::Months(1),
            PayFrequency::Quarterly => PayStep::Months(3),
            PayFrequency::Annual => PayStep::Months(12),
        }
    }

    /// How many payments a year this frequency makes, as payroll counts them: 52, 26 and 13
    /// for the week-based frequencies (not 365.25 / 7), 12, 4 and 1 for the month-based ones.
    pub open spec fn periods(self) -> nat {
        match self {
            PayFrequency::Weekly => 52,
            PayFrequency::Fortnightly => 26,
            PayFrequency::FourWeekly => 13,
            PayFrequency::Monthly => 12,
            PayFrequency::Quarterly => 4,
            PayFrequency::Annual => 1,
        }
    }

    /// The divisor turning a quoted annual figure into one payment; see [`Self::periods`].
    pub fn periods_per_year(self) -> (n: u32)
        ensures
            n == self.periods(),
    {
        match self {
            PayFrequency::Weekly => 52,
            PayFrequency::Fortnightly => 26,
            PayFrequency::FourWeekly => 13,
            PayFrequency::Monthly => 12,
            PayFrequency::Quarterly => 4,
            PayFrequency::Annual => 1,
        }
    }

    /// How this frequency advances: day-stepped frequencies drift through the calendar,
    /// month-stepped ones do not.
    pub fn step(self) -> (r: PayStep)
        ensures
            r == self.stride(),
    {
        match self {
            PayFrequency::Weekly => PayStep::Days(7),
            PayFrequency::Fortnightly => PayStep::Days(14),
            PayFrequency::FourWeekly => PayStep::Days(28),
            PayFrequency::Monthly => PayStep::Months(1),
            PayFrequency::Quarterly => PayStep::Months(3),
            PayFrequency::Annual => PayStep::Months(12),
        }
    }
}

/// A year's payments at a frequency's step cover exactly one payroll year: fifty-two weeks
/// for the week-based frequencies, so a year holding one more payday pays it, and twelve
/// months for the month-based ones.
pub proof fn lemma_periods_cover_a_payroll_year(k: PayFrequency)
    ensures
        k.stride() matches PayStep::Days(d) ==> k.periods() * d == 364,
        k.stride() matches PayStep::Months(m) ==> k.periods() * m == 12,
{
}

/// Every frequency reads back from its stored text as itself.
pub proof fn lemma_pay_frequency_round_trip(k: PayFrequency)
    ensures
        PayFrequency::parse_text(k.text()) == Some(k),
{
    reveal_strlit("weekly");
    reveal_strlit("fortnightly");
    reveal_strlit("four_weekly");
    reveal_strlit("monthly");
    reveal_strlit("quarterly");
    reveal_strlit("annual");
    assert("weekly"@.len() == 6);
    assert("fortnightly"@.len() == 11);
    assert("four_weekly"@.len() == 11);
    assert("monthly"@.len() == 7);
    assert("quarterly"@.len() == 9);
    assert("annual"@.len() == 6);
    assert("annual"@[0] == 'a');
    assert("fortnightly"@[2] == 'r');
    assert("four_weekly"@[2] == 'u');
    assert("weekly"@[0] == 'w');
}

/// Which direction a stream's recorded figure points, and, when it is before deductions, whose
/// rules apply.
#[derive(Debug, Clone, Copy, PartialEq, Eq, Structural)]
pub enum IncomeBasis {
    /// The recorded figure is take-home.
    Net,
    /// The recorded figure is before New Zealand PAYE, ACC, KiwiSaver and student loan.
    GrossNzPaye,
}

impl IncomeBasis {
    /// The stored text of each basis.
    pub open spec fn text(self) -> Seq<char> {
        match self {
            IncomeBasis::Net => "net"@,
            IncomeBasis::GrossNzPaye => "gross_nz_paye"@,
        }
    }

    /// The basis whose stored text is `s`, if any.
    pub open spec fn parse_text(s: Seq<char>) -> Option<IncomeBasis> {
        if s == "net"@ {
            Some(IncomeBasis::Net)
        } else if s == "gross_nz_paye"@ {
            Some(IncomeBasis::GrossNzPaye)
        } else {
            None
        }
    }

    pub fn as_str(self) -> (r: &'static str)
        ensures
            r@ == self.text(),
    {
        match self {
            IncomeBasis::Net => "net",
            IncomeBasis::GrossNzPaye => "gross_nz_paye",
        }
    }

    /// Read a stored basis back. Unknown text is an error that quotes it.
    pub fn from_str(s: &str) -> (r: Result<IncomeBasis, String>)
        ensures
            match Self::parse_text(s@) {
                Some(k) => r == Ok::<IncomeBasis, String>(k),
                None => r matches Err(m) && m@ == "unknown income basis '"@ + s@ + "'"@,
            },
    {
        if str_eq(s, "net") {
            Ok(IncomeBasis::Net)
        } else if str_eq(s, "gross_nz_paye") {
            Ok(IncomeBasis::GrossNzPaye)
        } else {
            let mut m = join2("unknown income basis '", s);
            m.append("'");
            Err(m)
        }
    }

    /// The statutory scale to apply, or `None` when the figure is already take-home.
    pub fn tax_scale(self) -> (r: Option<TaxScaleId>)
        ensures
            r == match self {
                IncomeBasis::Net => None,
                IncomeBasis::GrossNzPaye => Some(TaxScaleId::NzPaye),
            },
    {
        match self {
            IncomeBasis::Net => None,
            IncomeBasis::GrossNzPaye => Some(TaxScaleId::NzPaye),
        }
    }

    /// Whether a gross-to-net conversion applies at all: exactly when there is a scale.
    pub fn is_gross(self) -> (r: bool)
        ensures
            r == (self == IncomeBasis::GrossNzPaye),
    {
        match self {
            IncomeBasis::Net => false,
            IncomeBasis::GrossNzPaye => true,
        }
    }
}

/// Every basis reads back from its stored text as itself.
pub proof fn lemma_income_basis_round_trip(k: IncomeBasis)
    ensures
        IncomeBasis::parse_text(k.text()) == Some(k),
{
    reveal_strlit("net");
    reveal_strlit("gross_nz_paye");
    assert("net"@.len() == 3);
    assert("gross_nz_paye"@.len() == 13);
}

/// Where a stream's gross-to-net map came from.
#[derive(Debug, Clone, Copy, PartialEq, Eq, Structural)]
pub enum TakeHomeSource {
    /// The user asserting a rate; an assertion wins.
    Override,
    /// The basis is already net, so take-home is the recorded figure by definition.
    AlreadyNet,
    /// Computed from the statutory scale.
    Statutory,
}

impl TakeHomeSource {
    /// The stored text of each source.
    pub open spec fn text(self) -> Seq<char> {
        match self {
            TakeHomeSource::Override => "override"@,
            TakeHomeSource::AlreadyNet => "already_net"@,
            TakeHomeSource::Statutory => "statutory"@,
        }
    }

    pub fn as_str(self) -> (r: &'static str)
        ensures
            r@ == self.text(),
    {
        match self {
            TakeHomeSource::Override => "override",
            TakeHomeSource::AlreadyNet => "already_net",
            TakeHomeSource::Statutory => "statutory",
        }
    }
}

/// A stream's gross-to-net map: an average rate for the salary as it stands, and a marginal
/// rate for the increment a promotion adds.
#[derive(Debug, Clone, Copy, PartialEq, Eq, Structural)]
pub struct TakeHome {
    pub average_bps: i64,
    pub marginal_bps: i64,
    pub source: TakeHomeSource,
}

impl TakeHome {
    /// Take-home is the whole figure, for a stream already recorded net.
    pub fn all_of_it() -> (r: TakeHome)
        ensures
            r == (TakeHome {
                average_bps: 10_000,
                marginal_bps: 10_000,
                source: TakeHomeSource::AlreadyNet,
            }),
    {
        TakeHome { average_bps: 10_000, marginal_bps: 10_000, source: TakeHomeSource::AlreadyNet }
    }
}

#[derive(Debug, Clone)]
pub struct IncomeStream {
    pub id: i64,
    pub person_id: i64,
    pub label: String,
    pub employer: Option<String>,
    pub currency_code: String,
    pub annual_amount_minor: i64,
    pub basis: IncomeBasis,
    pub pay_frequency: PayFrequency,
    pub first_payment_on: String,
    pub starts_on: String,
    pub ends_on: Option<String>,
    pub annual_increase_bps: i64,
    pub kiwisaver_bps: i64,
    pub student_loan: bool,
    pub take_home_bps: Option<i64>,
    pub linked_category_id: Option<i64>,
    pub enabled: bool,
    pub sort_order: i64,
    pub notes: Option<String>,
    /// The dated pay scale, ascending.
    pub steps: Vec<IncomeStreamStep>,
    pub created_at: String,
    pub updated_at: String,
}

#[derive(Debug, Clone)]
pub struct IncomeStreamStep {
    pub id: i64,
    pub income_stream_id: i64,
    pub effective_on: String,
    pub annual_amount_minor: i64,
    pub label: Option<String>,
}

/// Write body. `steps` is a full replace: the steps sent are the schedule after the write.
#[derive(Debug)]
pub struct SaveIncomeStream {
    pub label: String,
    pub employer: Option<String>,
    pub currency_code: String,
    pub annual_amount_minor: Money,
    pub basis: IncomeBasis,
    pub pay_frequency: PayFrequency,
    pub first_payment_on: IsoDate,
    pub starts_on: IsoDate,
    pub ends_on: Option<IsoDate>,
    pub annual_increase_bps: i64,
    pub kiwisaver_bps: i64,
    pub student_loan: bool,
    pub take_home_bps: Option<i64>,
    pub linked_category_id: Option<i64>,
    pub enabled: bool,
    pub sort_order: i64,
    pub notes: Option<String>,
    pub steps: Vec<SaveIncomeStreamStep>,
}

/// What an omitted `enabled` means: on.
pub fn default_true() -> (r: bool)
    ensures
        r,
{
    true
}

#[derive(Debug, Clone)]
pub struct SaveIncomeStreamStep {
    pub effective_on: IsoDate,
    pub annual_amount_minor: Money,
    pub label: Option<String>,
}

} // verus!
