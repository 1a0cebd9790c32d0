use sure::accounts::AccountKind;
use sure::accounts::AccountKind::{
    Asset, Bank, Brokerage, Cash, CreditCard, Crypto, Liability, Loan, Mortgage, RealEstate,
    RevolvingCredit, Savings, SharesNz, SharesPrivate, SharesUs, StudentLoan, Vehicle,
};
use sure::import::{CutoverRule, ImportBlockReason, ImportMatch, ImportSource};

const EVERY_SOURCE: [ImportSource; 4] = [
    ImportSource::AsbCsv,
    ImportSource::MyirSls,
    ImportSource::SharesiesZip,
    ImportSource::CsvUpload,
];

#[test]
fn provider_tag_stems_are_the_ones_already_in_the_database() {
    assert_eq!(ImportSource::AsbCsv.provider_tag(12), "asb#12");
    assert_eq!(ImportSource::MyirSls.provider_tag(12), "myir#12");
    assert_eq!(ImportSource::SharesiesZip.provider_tag(12), "sharesies#12");
    assert_eq!(ImportSource::CsvUpload.provider_tag(12), "csv-upload#12");
}

#[test]
fn every_source_has_its_own_tag_stem() {
    let mut seen = std::collections::HashSet::new();
    for source in EVERY_SOURCE {
        assert!(
            seen.insert(source.tag_stem()),
            "{} reuses the stem {}",
            source.as_str(),
            source.tag_stem()
        );
    }
}

#[test]
fn every_source_round_trips_through_its_wire_name() {
    for source in EVERY_SOURCE {
        assert_eq!(ImportSource::from_str(source.as_str()), Ok(source));
    }
    assert!(ImportSource::from_str("asb").is_err());
}

#[test]
fn each_source_accepts_the_kinds_its_old_route_did() {
    for kind in [Cash, Bank, Savings, CreditCard, RevolvingCredit] {
        assert!(ImportSource::AsbCsv.accepts(kind), "{kind:?}");
    }
    for kind in [Mortgage, StudentLoan, Loan, RealEstate, Brokerage, Crypto] {
        assert!(!ImportSource::AsbCsv.accepts(kind), "{kind:?}");
    }
    assert!(ImportSource::MyirSls.accepts(StudentLoan));
    assert!(!ImportSource::MyirSls.accepts(Loan));
    assert!(ImportSource::SharesiesZip.accepts(Brokerage));
    assert!(!ImportSource::SharesiesZip.accepts(SharesNz));
}

#[test]
fn the_fallback_source_accepts_every_kind() {
    for kind in [
        Cash, Bank, Savings, CreditCard, RevolvingCredit, Mortgage, StudentLoan, Loan, Liability,
        Vehicle, RealEstate, Asset, SharesNz, SharesUs, SharesPrivate, Brokerage, Crypto,
    ] {
        assert!(ImportSource::CsvUpload.accepts(kind), "{kind:?}");
    }
}

#[test]
fn each_source_has_its_cutover_rule_and_routing() {
    assert_eq!(ImportSource::AsbCsv.cutover_rule(), CutoverRule::Strict);
    assert_eq!(ImportSource::CsvUpload.cutover_rule(), CutoverRule::Strict);
    assert_eq!(ImportSource::MyirSls.cutover_rule(), CutoverRule::Lenient);
    assert_eq!(ImportSource::SharesiesZip.cutover_rule(), CutoverRule::Never);
    assert!(ImportSource::MyirSls.routes_by_sole_candidate());
    assert!(ImportSource::SharesiesZip.routes_by_sole_candidate());
    assert!(!ImportSource::AsbCsv.routes_by_sole_candidate());
    assert!(!ImportSource::CsvUpload.routes_by_sole_candidate());
    assert_eq!(ImportSource::MyirSls.label(), "myIR student-loan export");
    assert_eq!(
        ImportSource::from_str("zip"),
        Err("unknown import source 'zip'".to_string())
    );
    assert_eq!(ImportSource::AsbCsv.provider_tag(-3), "asb#-3");
}

#[test]
fn matches_and_blocks_have_their_wire_names() {
    assert_eq!(ImportMatch::TransactionHistory.as_str(), "transaction_history");
    assert_eq!(ImportMatch::OnlyCandidate.as_str(), "only_candidate");
    assert_eq!(ImportBlockReason::UnreadableLedgerDate.as_str(), "unreadable_ledger_date");
    assert!(ImportBlockReason::UnsyncedFeed.resolvable_by_stating_cutover());
    assert!(!ImportBlockReason::UnreadableLedgerDate.resolvable_by_stating_cutover());
}
