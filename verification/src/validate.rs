//! Running the registered checks over an invoice.
use vstd::prelude::*;
use crate::category::{VatCategory, profile};
use crate::checks::{fires_some, no_finding};
use crate::emit::{emitted, lemma_emitted_none};
use crate::invoice::Invoice;
use crate::profile::profile_slug;
use crate::report::{Finding, Report, sorted};
use crate::rule_table::{Check, Rule};
use crate::rules::{core_rules, core_rules_spec, extra_rules, extra_rules_spec};

verus! {

/// The id a check emits under (empty for the checks that emit nothing).
#[verifier::opaque]
pub open spec fn check_id(c: Check) -> Seq<char> {
    match c {
        Check::SpecLookup => "CORE-SPEC-01"@,
        Check::CoreProcess01 => "CORE-PROCESS-01"@,
        Check::IbrSr63 => "IBR-SR-63"@,
        Check::Br01 => "BR-01"@,
        Check::Br02 => "BR-02"@,
        Check::Br03 => "BR-03"@,
        Check::Br04 => "BR-04"@,
        Check::Br08 => "BR-08"@,
        Check::Br09 => "BR-09"@,
        Check::Br10 => "BR-10"@,
        Check::Br11 => "BR-11"@,
        Check::Br21 => "BR-21"@,
        Check::Br25 => "BR-25"@,
        Check::Br22 => "BR-22"@,
        Check::Br23 => "BR-23"@,
        Check::Br24 => Seq::empty(),
        Check::Br26 => "BR-26"@,
        Check::Br27 => "BR-27"@,
        Check::Br28 => "BR-28"@,
        Check::Br51 => "BR-51"@,
        Check::Br17 => "BR-17"@,
        Check::Br18 => "BR-18"@,
        Check::Br20 => "BR-20"@,
        Check::Br56 => "BR-56"@,
        Check::Br29 => "BR-29"@,
        Check::Br30 => "BR-30"@,
        Check::Br52 => "BR-52"@,
        Check::Br54 => "BR-54"@,
        Check::Br55 => "BR-55"@,
        Check::Br57 => "BR-57"@,
        Check::Br62 => "BR-62"@,
        Check::Br63 => "BR-63"@,
        Check::Br64 => "BR-64"@,
        Check::Br65 => "BR-65"@,
        Check::BrCo09 => "BR-CO-09"@,
        Check::BrCo19 => "BR-CO-19"@,
        Check::BrCo20 => "BR-CO-20"@,
        Check::BrCo21 => "BR-CO-21"@,
        Check::BrCo22 => "BR-CO-22"@,
        Check::BrCo23 => "BR-CO-23"@,
        Check::BrCo24 => "BR-CO-24"@,
        Check::Br12 => "BR-12"@,
        Check::Br13 => "BR-13"@,
        Check::Br14 => "BR-14"@,
        Check::Br15 => "BR-15"@,
        Check::Br19 => "BR-19"@,
        Check::Br31 => Seq::empty(),
        Check::Br32 => "BR-32"@,
        Check::Br33 => "BR-33"@,
        Check::Br36 => Seq::empty(),
        Check::Br37 => "BR-37"@,
        Check::Br38 => "BR-38"@,
        Check::Br41 => Seq::empty(),
        Check::Br42 => "BR-42"@,
        Check::Br43 => Seq::empty(),
        Check::Br44 => "BR-44"@,
        Check::Br45 => Seq::empty(),
        Check::Br46 => Seq::empty(),
        Check::Br47 => "BR-47"@,
        Check::Br48 => "BR-48"@,
        Check::Br49 => "BR-49"@,
        Check::Br50 => "BR-50"@,
        Check::Br61 => "BR-61"@,
        Check::BrCo26 => "BR-CO-26"@,
        Check::BrCo03 => "BR-CO-03"@,
        Check::BrCoNlp => Seq::empty(),
        Check::Br05 => "BR-05"@,
        Check::Br53 => "BR-53"@,
        Check::Br06 => "BR-06"@,
        Check::Br07 => "BR-07"@,
        Check::Br16 => "BR-16"@,
        Check::BrCo04 => "BR-CO-04"@,
        Check::BrCo10 => "BR-CO-10"@,
        Check::BrCo11 => "BR-CO-11"@,
        Check::BrCo12 => "BR-CO-12"@,
        Check::BrCo13 => "BR-CO-13"@,
        Check::BrCo14 => "BR-CO-14"@,
        Check::BrCo15 => "BR-CO-15"@,
        Check::BrCo16 => "BR-CO-16"@,
        Check::BrCo17 => "BR-CO-17"@,
        Check::PintTax => "PINT-TAX"@,
        Check::Ibr02My => "IBR-02-MY"@,
        Check::Ibr03My => "IBR-03-MY"@,
        Check::Ibr04My => "IBR-04-MY"@,
        Check::IbrCl05My => "IBR-CL-05-MY"@,
        Check::AlignedIbrpCl01My => "ALIGNED-IBRP-CL-01-MY"@,
        Check::BrCo18 => "BR-CO-18"@,
        Check::BrS01 => "BR-S-01"@,
        Check::BrS02 => "BR-S-02"@,
        Check::BrS03 => "BR-S-03"@,
        Check::BrS04 => "BR-S-04"@,
        Check::BrS05 => "BR-S-05"@,
        Check::BrS06 => "BR-S-06"@,
        Check::BrS07 => "BR-S-07"@,
        Check::BrS08 => "BR-S-08"@,
        Check::BrS09 => "BR-S-09"@,
        Check::BrS10 => "BR-S-10"@,
        Check::BrZ01 => "BR-Z-01"@,
        Check::BrZ02 => "BR-Z-02"@,
        Check::BrZ03 => "BR-Z-03"@,
        Check::BrZ04 => "BR-Z-04"@,
        Check::BrZ05 => "BR-Z-05"@,
        Check::BrZ06 => "BR-Z-06"@,
        Check::BrZ07 => "BR-Z-07"@,
        Check::BrZ08 => "BR-Z-08"@,
        Check::BrZ09 => "BR-Z-09"@,
        Check::BrZ10 => "BR-Z-10"@,
        Check::BrE01 => "BR-E-01"@,
        Check::BrE02 => "BR-E-02"@,
        Check::BrE03 => "BR-E-03"@,
        Check::BrE04 => "BR-E-04"@,
        Check::BrE05 => "BR-E-05"@,
        Check::BrE06 => "BR-E-06"@,
        Check::BrE07 => "BR-E-07"@,
        Check::BrE08 => "BR-E-08"@,
        Check::BrE09 => "BR-E-09"@,
        Check::BrE10 => "BR-E-10"@,
        Check::BrAe01 => "BR-AE-01"@,
        Check::BrAe02 => "BR-AE-02"@,
        Check::BrAe03 => "BR-AE-03"@,
        Check::BrAe04 => "BR-AE-04"@,
        Check::BrAe05 => "BR-AE-05"@,
        Check::BrAe06 => "BR-AE-06"@,
        Check::BrAe07 => "BR-AE-07"@,
        Check::BrAe08 => "BR-AE-08"@,
        Check::BrAe09 => "BR-AE-09"@,
        Check::BrAe10 => "BR-AE-10"@,
        Check::BrIc01 => "BR-IC-01"@,
        Check::BrIc02 => "BR-IC-02"@,
        Check::BrIc03 => "BR-IC-03"@,
        Check::BrIc04 => "BR-IC-04"@,
        Check::BrIc05 => "BR-IC-05"@,
        Check::BrIc06 => "BR-IC-06"@,
        Check::BrIc07 => "BR-IC-07"@,
        Check::BrIc11 => "BR-IC-11"@,
        Check::BrIc12 => "BR-IC-12"@,
        Check::BrIc08 => "BR-IC-08"@,
        Check::BrIc09 => "BR-IC-09"@,
        Check::BrIc10 => "BR-IC-10"@,
        Check::BrG01 => "BR-G-01"@,
        Check::BrG02 => "BR-G-02"@,
        Check::BrG03 => "BR-G-03"@,
        Check::BrG04 => "BR-G-04"@,
        Check::BrG05 => "BR-G-05"@,
        Check::BrG06 => "BR-G-06"@,
        Check::BrG07 => "BR-G-07"@,
        Check::BrG08 => "BR-G-08"@,
        Check::BrG09 => "BR-G-09"@,
        Check::BrG10 => "BR-G-10"@,
        Check::BrO01 => "BR-O-01"@,
        Check::BrO02 => "BR-O-02"@,
        Check::BrO03 => "BR-O-03"@,
        Check::BrO04 => "BR-O-04"@,
        Check::BrO05 => "BR-O-05"@,
        Check::BrO06 => "BR-O-06"@,
        Check::BrO07 => "BR-O-07"@,
        Check::BrO08 => "BR-O-08"@,
        Check::BrO09 => "BR-O-09"@,
        Check::BrO10 => "BR-O-10"@,
        Check::BrO11 => "BR-O-11"@,
        Check::BrO12 => "BR-O-12"@,
        Check::BrO13 => "BR-O-13"@,
        Check::BrO14 => "BR-O-14"@,
        Check::BrAf01 => "BR-AF-01"@,
        Check::BrAf02 => "BR-AF-02"@,
        Check::BrAf03 => "BR-AF-03"@,
        Check::BrAf04 => "BR-AF-04"@,
        Check::BrAf05 => "BR-AF-05"@,
        Check::BrAf06 => "BR-AF-06"@,
        Check::BrAf07 => "BR-AF-07"@,
        Check::BrAf08 => "BR-AF-08"@,
        Check::BrAf09 => "BR-AF-09"@,
        Check::BrAf10 => "BR-AF-10"@,
        Check::BrAg01 => "BR-AG-01"@,
        Check::BrAg02 => "BR-AG-02"@,
        Check::BrAg03 => "BR-AG-03"@,
        Check::BrAg04 => "BR-AG-04"@,
        Check::BrAg05 => "BR-AG-05"@,
        Check::BrAg06 => "BR-AG-06"@,
        Check::BrAg07 => "BR-AG-07"@,
        Check::BrAg08 => "BR-AG-08"@,
        Check::BrAg09 => "BR-AG-09"@,
        Check::BrAg10 => "BR-AG-10"@,
        Check::BrB01 => "BR-B-01"@,
        Check::CheckBNotWithS => "BR-B-02"@,
        Check::MySa01 => "ALIGNED-IBRP-SA-01-MY"@,
        Check::MySa08 => "ALIGNED-IBRP-SA-08-MY"@,
        Check::MySa09 => "ALIGNED-IBRP-SA-09-MY"@,
        Check::MySa10 => "ALIGNED-IBRP-SA-10-MY"@,
        Check::MySe01 => "ALIGNED-IBRP-SE-01-MY"@,
        Check::MySe08 => "ALIGNED-IBRP-SE-08-MY"@,
        Check::MySe09 => "ALIGNED-IBRP-SE-09-MY"@,
        Check::MySe10 => "ALIGNED-IBRP-SE-10-MY"@,
        Check::MyHvg08 => "ALIGNED-IBRP-HVG-08-MY"@,
        Check::MyHvg09 => "ALIGNED-IBRP-HVG-09-MY"@,
        Check::MyLvg08 => "ALIGNED-IBRP-LVG-08-MY"@,
        Check::MyLvg09 => "ALIGNED-IBRP-LVG-09-MY"@,
        Check::MyE09 => "ALIGNED-IBRP-E-09-MY"@,
        Check::MyTtx09 => "ALIGNED-IBRP-TTX-09-MY"@,
        Check::CheckMyOExclusive => "ALIGNED-IBRP-O-11-MY"@,
        Check::My002 => "ALIGNED-IBRP-002"@,
        Check::My046 => Seq::empty(),
        Check::My047 => "ALIGNED-IBRP-047"@,
        Check::My048 => "ALIGNED-IBRP-048"@,
        Check::MyHvg10 => "ALIGNED-IBRP-HVG-10-MY"@,
        Check::MyLvg10 => "ALIGNED-IBRP-LVG-10-MY"@,
        Check::MyTtx08 => "ALIGNED-IBRP-TTX-08-MY"@,
        Check::MyE05 => "ALIGNED-IBRP-E-05-MY"@,
        Check::MyE08 => "ALIGNED-IBRP-E-08-MY"@,
        Check::MyO09 => "ALIGNED-IBRP-O-09-MY"@,
        Check::BrCl01 => "BR-CL-01"@,
        Check::BrCl04 => "BR-CL-04"@,
        Check::BrCl05 => "BR-CL-05"@,
        Check::BrCl14 => "BR-CL-14"@,
        Check::BrCl06 => "BR-CL-06"@,
        Check::BrCl13 => "BR-CL-13"@,
        Check::BrCl15 => "BR-CL-15"@,
        Check::BrCl16 => "BR-CL-16"@,
        Check::BrCl19 => "BR-CL-19"@,
        Check::BrCl20 => "BR-CL-20"@,
        Check::BrCl17 => "BR-CL-17"@,
        Check::BrCl18 => "BR-CL-18"@,
        Check::BrCl22 => "BR-CL-22"@,
        Check::BrCl23 => "BR-CL-23"@,
        Check::BrCl24 => "BR-CL-24"@,
        Check::BrCl25 => "BR-CL-25"@,
        Check::BrDecPass => Seq::empty(),
        Check::R001 => "PEPPOL-EN16931-R001"@,
        Check::R007 => "PEPPOL-EN16931-R007"@,
        Check::R004 => "PEPPOL-EN16931-R004"@,
        Check::R003 => "PEPPOL-EN16931-R003"@,
        Check::R010 => "PEPPOL-EN16931-R010"@,
        Check::R020 => "PEPPOL-EN16931-R020"@,
        Check::R005 => "PEPPOL-EN16931-R005"@,
        Check::R055 => "PEPPOL-EN16931-R055"@,
        Check::R061 => "PEPPOL-EN16931-R061"@,
        Check::P0100 => "PEPPOL-EN16931-P0100"@,
        Check::P0104 => "PEPPOL-EN16931-P0104"@,
        Check::P0105 => "PEPPOL-EN16931-P0105"@,
        Check::P0106 => "PEPPOL-EN16931-P0106"@,
        Check::P0107 => "PEPPOL-EN16931-P0107"@,
        Check::P0108 => "PEPPOL-EN16931-P0108"@,
        Check::P0109 => "PEPPOL-EN16931-P0109"@,
        Check::P0110 => "PEPPOL-EN16931-P0110"@,
        Check::P0111 => "PEPPOL-EN16931-P0111"@,
        Check::R120 => "PEPPOL-EN16931-R120"@,
        Check::R040 => "PEPPOL-EN16931-R040"@,
        Check::R046 => "PEPPOL-EN16931-R046"@,
        Check::R121 => "PEPPOL-EN16931-R121"@,
    }
}

/// The checks that the registry keeps for their text only.
/// The condition under which rule `c` appends a finding for `inv`.
#[verifier::opaque]
pub open spec fn rule_fires(c: Check, inv: Invoice) -> bool {
    match c {
    Check::SpecLookup => crate::checks::spec_lookup_fires(inv),
    Check::CoreProcess01 => crate::checks::core_process_01_fires(inv),
    Check::IbrSr63 => crate::checks::ibr_sr_63_fires(inv),
    Check::Br01 => crate::checks::br_01_fires(inv),
    Check::Br02 => crate::checks::br_02_fires(inv),
    Check::Br03 => crate::checks::br_03_fires(inv),
    Check::Br04 => crate::checks::br_04_fires(inv),
    Check::Br08 => crate::checks::br_08_fires(inv),
    Check::Br09 => crate::checks::br_09_fires(inv),
    Check::Br10 => crate::checks::br_10_fires(inv),
    Check::Br11 => crate::checks::br_11_fires(inv),
    Check::Br21 => crate::item_checks::br_21_fires(inv),
    Check::Br25 => crate::item_checks::br_25_fires(inv),
    Check::Br22 => crate::item_checks::br_22_fires(inv),
    Check::Br23 => crate::item_checks::br_23_fires(inv),
    Check::Br24 => false,
    Check::Br26 => crate::item_checks::br_26_fires(inv),
    Check::Br27 => crate::item_checks::br_27_fires(inv),
    Check::Br28 => crate::item_checks::br_28_fires(inv),
    Check::Br51 => crate::checks::br_51_fires(inv),
    Check::Br17 => crate::checks::br_17_fires(inv),
    Check::Br18 => crate::checks::br_18_fires(inv),
    Check::Br20 => crate::checks::br_20_fires(inv),
    Check::Br56 => crate::checks::br_56_fires(inv),
    Check::Br29 => crate::checks::br_29_fires(inv),
    Check::Br30 => crate::item_checks::br_30_fires(inv),
    Check::Br52 => crate::item_checks::br_52_fires(inv),
    Check::Br54 => crate::item_checks::br_54_fires(inv),
    Check::Br55 => crate::item_checks::br_55_fires(inv),
    Check::Br57 => crate::checks::br_57_fires(inv),
    Check::Br62 => crate::checks::br_62_fires(inv),
    Check::Br63 => crate::checks::br_63_fires(inv),
    Check::Br64 => crate::item_checks::br_64_fires(inv),
    Check::Br65 => crate::item_checks::br_65_fires(inv),
    Check::BrCo09 => false,
    Check::BrCo19 => crate::checks::br_co_19_fires(inv),
    Check::BrCo20 => crate::item_checks::br_co_20_fires(inv),
    Check::BrCo21 => crate::item_checks::br_co_21_fires(inv),
    Check::BrCo22 => crate::item_checks::br_co_22_fires(inv),
    Check::BrCo23 => crate::item_checks::br_co_23_fires(inv),
    Check::BrCo24 => crate::item_checks::br_co_24_fires(inv),
    Check::Br12 => crate::checks::br_12_fires(inv),
    Check::Br13 => crate::checks::br_13_fires(inv),
    Check::Br14 => crate::checks::br_14_fires(inv),
    Check::Br15 => crate::checks::br_15_fires(inv),
    Check::Br19 => crate::checks::br_19_fires(inv),
    Check::Br31 => false,
    Check::Br32 => crate::item_checks::br_32_fires(inv),
    Check::Br33 => crate::item_checks::br_33_fires(inv),
    Check::Br36 => false,
    Check::Br37 => crate::item_checks::br_37_fires(inv),
    Check::Br38 => crate::item_checks::br_38_fires(inv),
    Check::Br41 => false,
    Check::Br42 => crate::item_checks::br_42_fires(inv),
    Check::Br43 => false,
    Check::Br44 => crate::item_checks::br_44_fires(inv),
    Check::Br45 => false,
    Check::Br46 => false,
    Check::Br47 => crate::item_checks::br_47_fires(inv),
    Check::Br48 => crate::item_checks::br_48_fires(inv),
    Check::Br49 => crate::checks::br_49_fires(inv),
    Check::Br50 => crate::checks::br_50_fires(inv),
    Check::Br61 => crate::checks::br_61_fires(inv),
    Check::BrCo26 => crate::checks::br_co_26_fires(inv),
    Check::BrCo03 => crate::checks::br_co_03_fires(inv),
    Check::BrCoNlp => false,
    Check::Br05 => crate::checks::br_05_fires(inv),
    Check::Br53 => crate::checks::br_53_fires(inv),
    Check::Br06 => crate::checks::br_06_fires(inv),
    Check::Br07 => crate::checks::br_07_fires(inv),
    Check::Br16 => crate::checks::br_16_fires(inv),
    Check::BrCo04 => crate::item_checks::br_co_04_fires(inv),
    Check::BrCo10 => crate::total_checks::br_co_10_fires(inv),
    Check::BrCo11 => crate::total_checks::br_co_11_fires(inv),
    Check::BrCo12 => crate::total_checks::br_co_12_fires(inv),
    Check::BrCo13 => crate::total_checks::br_co_13_fires(inv),
    Check::BrCo14 => crate::total_checks::br_co_14_fires(inv),
    Check::BrCo15 => crate::total_checks::br_co_15_fires(inv),
    Check::BrCo16 => crate::total_checks::br_co_16_fires(inv),
    Check::BrCo17 => crate::total_checks::br_co_17_fires(inv),
    Check::PintTax => crate::item_checks::pint_tax_fires(inv),
    Check::Ibr02My => crate::checks::ibr_02_my_fires(inv),
    Check::Ibr03My => crate::checks::ibr_03_my_fires(inv),
    Check::Ibr04My => crate::checks::ibr_04_my_fires(inv),
    Check::IbrCl05My => crate::checks::ibr_cl_05_my_fires(inv),
    Check::AlignedIbrpCl01My => crate::item_checks::aligned_ibrp_cl_01_my_fires(inv),
    Check::BrCo18 => crate::family_checks::br_co_18_fires(inv),
    Check::BrS01 => crate::family_checks::check_groups_fires(inv, crate::category::family(VatCategory::Standard), "BR-S-01"),
    Check::BrS02 => crate::family_checks::check_identifiers_in_fires(inv, crate::category::family(VatCategory::Standard), "BR-S-02", 0),
    Check::BrS03 => crate::family_checks::check_identifiers_in_fires(inv, crate::category::family(VatCategory::Standard), "BR-S-03", 1),
    Check::BrS04 => crate::family_checks::check_identifiers_in_fires(inv, crate::category::family(VatCategory::Standard), "BR-S-04", 2),
    Check::BrS05 => crate::family_checks::check_rate_line_fires(inv, crate::category::family(VatCategory::Standard), "BR-S-05"),
    Check::BrS06 => crate::family_checks::check_rate_ac_fires(inv, crate::category::family(VatCategory::Standard), "BR-S-06", false),
    Check::BrS07 => crate::family_checks::check_rate_ac_fires(inv, crate::category::family(VatCategory::Standard), "BR-S-07", true),
    Check::BrS08 => crate::family_checks::check_taxable_fires(inv, crate::category::family(VatCategory::Standard), "BR-S-08"),
    Check::BrS09 => crate::family_checks::check_tax_fires(inv, crate::category::family(VatCategory::Standard), "BR-S-09"),
    Check::BrS10 => crate::family_checks::check_exemption_fires(inv, crate::category::family(VatCategory::Standard), "BR-S-10"),
    Check::BrZ01 => crate::family_checks::check_groups_fires(inv, crate::category::family(VatCategory::ZeroRated), "BR-Z-01"),
    Check::BrZ02 => crate::family_checks::check_identifiers_in_fires(inv, crate::category::family(VatCategory::ZeroRated), "BR-Z-02", 0),
    Check::BrZ03 => crate::family_checks::check_identifiers_in_fires(inv, crate::category::family(VatCategory::ZeroRated), "BR-Z-03", 1),
    Check::BrZ04 => crate::family_checks::check_identifiers_in_fires(inv, crate::category::family(VatCategory::ZeroRated), "BR-Z-04", 2),
    Check::BrZ05 => crate::family_checks::check_rate_line_fires(inv, crate::category::family(VatCategory::ZeroRated), "BR-Z-05"),
    Check::BrZ06 => crate::family_checks::check_rate_ac_fires(inv, crate::category::family(VatCategory::ZeroRated), "BR-Z-06", false),
    Check::BrZ07 => crate::family_checks::check_rate_ac_fires(inv, crate::category::family(VatCategory::ZeroRated), "BR-Z-07", true),
    Check::BrZ08 => crate::family_checks::check_taxable_fires(inv, crate::category::family(VatCategory::ZeroRated), "BR-Z-08"),
    Check::BrZ09 => crate::family_checks::check_tax_fires(inv, crate::category::family(VatCategory::ZeroRated), "BR-Z-09"),
    Check::BrZ10 => crate::family_checks::check_exemption_fires(inv, crate::category::family(VatCategory::ZeroRated), "BR-Z-10"),
    Check::BrE01 => crate::family_checks::check_groups_fires(inv, crate::category::family(VatCategory::Exempt), "BR-E-01"),
    Check::BrE02 => crate::family_checks::check_identifiers_in_fires(inv, crate::category::family(VatCategory::Exempt), "BR-E-02", 0),
    Check::BrE03 => crate::family_checks::check_identifiers_in_fires(inv, crate::category::family(VatCategory::Exempt), "BR-E-03", 1),
    Check::BrE04 => crate::family_checks::check_identifiers_in_fires(inv, crate::category::family(VatCategory::Exempt), "BR-E-04", 2),
    Check::BrE05 => crate::family_checks::check_rate_line_fires(inv, crate::category::family(VatCategory::Exempt), "BR-E-05"),
    Check::BrE06 => crate::family_checks::check_rate_ac_fires(inv, crate::category::family(VatCategory::Exempt), "BR-E-06", false),
    Check::BrE07 => crate::family_checks::check_rate_ac_fires(inv, crate::category::family(VatCategory::Exempt), "BR-E-07", true),
    Check::BrE08 => crate::family_checks::check_taxable_fires(inv, crate::category::family(VatCategory::Exempt), "BR-E-08"),
    Check::BrE09 => crate::family_checks::check_tax_fires(inv, crate::category::family(VatCategory::Exempt), "BR-E-09"),
    Check::BrE10 => crate::family_checks::check_exemption_fires(inv, crate::category::family(VatCategory::Exempt), "BR-E-10"),
    Check::BrAe01 => crate::family_checks::check_groups_fires(inv, crate::category::family(VatCategory::ReverseCharge), "BR-AE-01"),
    Check::BrAe02 => crate::family_checks::check_identifiers_in_fires(inv, crate::category::family(VatCategory::ReverseCharge), "BR-AE-02", 0),
    Check::BrAe03 => crate::family_checks::check_identifiers_in_fires(inv, crate::category::family(VatCategory::ReverseCharge), "BR-AE-03", 1),
    Check::BrAe04 => crate::family_checks::check_identifiers_in_fires(inv, crate::category::family(VatCategory::ReverseCharge), "BR-AE-04", 2),
    Check::BrAe05 => crate::family_checks::check_rate_line_fires(inv, crate::category::family(VatCategory::ReverseCharge), "BR-AE-05"),
    Check::BrAe06 => crate::family_checks::check_rate_ac_fires(inv, crate::category::family(VatCategory::ReverseCharge), "BR-AE-06", false),
    Check::BrAe07 => crate::family_checks::check_rate_ac_fires(inv, crate::category::family(VatCategory::ReverseCharge), "BR-AE-07", true),
    Check::BrAe08 => crate::family_checks::check_taxable_fires(inv, crate::category::family(VatCategory::ReverseCharge), "BR-AE-08"),
    Check::BrAe09 => crate::family_checks::check_tax_fires(inv, crate::category::family(VatCategory::ReverseCharge), "BR-AE-09"),
    Check::BrAe10 => crate::family_checks::check_exemption_fires(inv, crate::category::family(VatCategory::ReverseCharge), "BR-AE-10"),
    Check::BrIc01 => crate::family_checks::check_groups_fires(inv, crate::category::family(VatCategory::IntraCommunity), "BR-IC-01"),
    Check::BrIc02 => crate::family_checks::check_identifiers_in_fires(inv, crate::category::family(VatCategory::IntraCommunity), "BR-IC-02", 0),
    Check::BrIc03 => crate::family_checks::check_identifiers_in_fires(inv, crate::category::family(VatCategory::IntraCommunity), "BR-IC-03", 1),
    Check::BrIc04 => crate::family_checks::check_identifiers_in_fires(inv, crate::category::family(VatCategory::IntraCommunity), "BR-IC-04", 2),
    Check::BrIc05 => crate::family_checks::check_rate_line_fires(inv, crate::category::family(VatCategory::IntraCommunity), "BR-IC-05"),
    Check::BrIc06 => crate::family_checks::check_rate_ac_fires(inv, crate::category::family(VatCategory::IntraCommunity), "BR-IC-06", false),
    Check::BrIc07 => crate::family_checks::check_rate_ac_fires(inv, crate::category::family(VatCategory::IntraCommunity), "BR-IC-07", true),
    Check::BrIc11 => crate::family_checks::br_ic_11_fires(inv),
    Check::BrIc12 => crate::family_checks::br_ic_12_fires(inv),
    Check::BrIc08 => crate::family_checks::check_taxable_fires(inv, crate::category::family(VatCategory::IntraCommunity), "BR-IC-08"),
    Check::BrIc09 => crate::family_checks::check_tax_fires(inv, crate::category::family(VatCategory::IntraCommunity), "BR-IC-09"),
    Check::BrIc10 => crate::family_checks::check_exemption_fires(inv, crate::category::family(VatCategory::IntraCommunity), "BR-IC-10"),
    Check::BrG01 => crate::family_checks::check_groups_fires(inv, crate::category::family(VatCategory::Export), "BR-G-01"),
    Check::BrG02 => crate::family_checks::check_identifiers_in_fires(inv, crate::category::family(VatCategory::Export), "BR-G-02", 0),
    Check::BrG03 => crate::family_checks::check_identifiers_in_fires(inv, crate::category::family(VatCategory::Export), "BR-G-03", 1),
    Check::BrG04 => crate::family_checks::check_identifiers_in_fires(inv, crate::category::family(VatCategory::Export), "BR-G-04", 2),
    Check::BrG05 => crate::family_checks::check_rate_line_fires(inv, crate::category::family(VatCategory::Export), "BR-G-05"),
    Check::BrG06 => crate::family_checks::check_rate_ac_fires(inv, crate::category::family(VatCategory::Export), "BR-G-06", false),
    Check::BrG07 => crate::family_checks::check_rate_ac_fires(inv, crate::category::family(VatCategory::Export), "BR-G-07", true),
    Check::BrG08 => crate::family_checks::check_taxable_fires(inv, crate::category::family(VatCategory::Export), "BR-G-08"),
    Check::BrG09 => crate::family_checks::check_tax_fires(inv, crate::category::family(VatCategory::Export), "BR-G-09"),
    Check::BrG10 => crate::family_checks::check_exemption_fires(inv, crate::category::family(VatCategory::Export), "BR-G-10"),
    Check::BrO01 => crate::family_checks::check_groups_fires(inv, crate::category::family(VatCategory::OutOfScope), "BR-O-01"),
    Check::BrO02 => crate::family_checks::check_identifiers_in_fires(inv, crate::category::family(VatCategory::OutOfScope), "BR-O-02", 0),
    Check::BrO03 => crate::family_checks::check_identifiers_in_fires(inv, crate::category::family(VatCategory::OutOfScope), "BR-O-03", 1),
    Check::BrO04 => crate::family_checks::check_identifiers_in_fires(inv, crate::category::family(VatCategory::OutOfScope), "BR-O-04", 2),
    Check::BrO05 => crate::family_checks::check_rate_line_fires(inv, crate::category::family(VatCategory::OutOfScope), "BR-O-05"),
    Check::BrO06 => crate::family_checks::check_rate_ac_fires(inv, crate::category::family(VatCategory::OutOfScope), "BR-O-06", false),
    Check::BrO07 => crate::family_checks::check_rate_ac_fires(inv, crate::category::family(VatCategory::OutOfScope), "BR-O-07", true),
    Check::BrO08 => crate::family_checks::check_taxable_fires(inv, crate::category::family(VatCategory::OutOfScope), "BR-O-08"),
    Check::BrO09 => crate::family_checks::check_tax_fires(inv, crate::category::family(VatCategory::OutOfScope), "BR-O-09"),
    Check::BrO10 => crate::family_checks::check_exemption_fires(inv, crate::category::family(VatCategory::OutOfScope), "BR-O-10"),
    Check::BrO11 => crate::family_checks::br_o_11_fires(inv),
    Check::BrO12 => crate::family_checks::br_o_12_fires(inv),
    Check::BrO13 => crate::family_checks::br_o_13_fires(inv),
    Check::BrO14 => crate::family_checks::br_o_14_fires(inv),
    Check::BrAf01 => crate::family_checks::check_groups_fires(inv, crate::category::family(VatCategory::CanaryIslands), "BR-AF-01"),
    Check::BrAf02 => crate::family_checks::check_identifiers_in_fires(inv, crate::category::family(VatCategory::CanaryIslands), "BR-AF-02", 0),
    Check::BrAf03 => crate::family_checks::check_identifiers_in_fires(inv, crate::category::family(VatCategory::CanaryIslands), "BR-AF-03", 1),
    Check::BrAf04 => crate::family_checks::check_identifiers_in_fires(inv, crate::category::family(VatCategory::CanaryIslands), "BR-AF-04", 2),
    Check::BrAf05 => crate::family_checks::check_rate_line_fires(inv, crate::category::family(VatCategory::CanaryIslands), "BR-AF-05"),
    Check::BrAf06 => crate::family_checks::check_rate_ac_fires(inv, crate::category::family(VatCategory::CanaryIslands), "BR-AF-06", false),
    Check::BrAf07 => crate::family_checks::check_rate_ac_fires(inv, crate::category::family(VatCategory::CanaryIslands), "BR-AF-07", true),
    Check::BrAf08 => crate::family_checks::check_taxable_fires(inv, crate::category::family(VatCategory::CanaryIslands), "BR-AF-08"),
    Check::BrAf09 => crate::family_checks::check_tax_fires(inv, crate::category::family(VatCategory::CanaryIslands), "BR-AF-09"),
    Check::BrAf10 => crate::family_checks::check_exemption_fires(inv, crate::category::family(VatCategory::CanaryIslands), "BR-AF-10"),
    Check::BrAg01 => crate::family_checks::check_groups_fires(inv, crate::category::family(VatCategory::CeutaMelilla), "BR-AG-01"),
    Check::BrAg02 => crate::family_checks::check_identifiers_in_fires(inv, crate::category::family(VatCategory::CeutaMelilla), "BR-AG-02", 0),
    Check::BrAg03 => crate::family_checks::check_identifiers_in_fires(inv, crate::category::family(VatCategory::CeutaMelilla), "BR-AG-03", 1),
    Check::BrAg04 => crate::family_checks::check_identifiers_in_fires(inv, crate::category::family(VatCategory::CeutaMelilla), "BR-AG-04", 2),
    Check::BrAg05 => crate::family_checks::check_rate_line_fires(inv, crate::category::family(VatCategory::CeutaMelilla), "BR-AG-05"),
    Check::BrAg06 => crate::family_checks::check_rate_ac_fires(inv, crate::category::family(VatCategory::CeutaMelilla), "BR-AG-06", false),
    Check::BrAg07 => crate::family_checks::check_rate_ac_fires(inv, crate::category::family(VatCategory::CeutaMelilla), "BR-AG-07", true),
    Check::BrAg08 => crate::family_checks::check_taxable_fires(inv, crate::category::family(VatCategory::CeutaMelilla), "BR-AG-08"),
    Check::BrAg09 => crate::family_checks::check_tax_fires(inv, crate::category::family(VatCategory::CeutaMelilla), "BR-AG-09"),
    Check::BrAg10 => crate::family_checks::check_exemption_fires(inv, crate::category::family(VatCategory::CeutaMelilla), "BR-AG-10"),
    Check::BrB01 => crate::family_checks::br_b_01_fires(inv),
    Check::CheckBNotWithS => crate::family_checks::check_b_not_with_s_fires(inv),
    Check::MySa01 => crate::my_checks::check_my_groups_fires(inv, "SA", "ALIGNED-IBRP-SA-01-MY"),
    Check::MySa08 => crate::my_checks::check_my_taxable_fires(inv, "SA", "ALIGNED-IBRP-SA-08-MY"),
    Check::MySa09 => crate::my_checks::check_my_tax_fires(inv, "SA", "ALIGNED-IBRP-SA-09-MY", true),
    Check::MySa10 => crate::my_checks::check_my_no_exemption_fires(inv, "SA", "ALIGNED-IBRP-SA-10-MY"),
    Check::MySe01 => crate::my_checks::check_my_groups_fires(inv, "SE", "ALIGNED-IBRP-SE-01-MY"),
    Check::MySe08 => crate::my_checks::check_my_taxable_fires(inv, "SE", "ALIGNED-IBRP-SE-08-MY"),
    Check::MySe09 => crate::my_checks::check_my_tax_fires(inv, "SE", "ALIGNED-IBRP-SE-09-MY", true),
    Check::MySe10 => crate::my_checks::check_my_no_exemption_fires(inv, "SE", "ALIGNED-IBRP-SE-10-MY"),
    Check::MyHvg08 => crate::my_checks::check_my_taxable_fires(inv, "HVG", "ALIGNED-IBRP-HVG-08-MY"),
    Check::MyHvg09 => crate::my_checks::check_my_tax_fires(inv, "HVG", "ALIGNED-IBRP-HVG-09-MY", true),
    Check::MyLvg08 => crate::my_checks::check_my_taxable_fires(inv, "LVG", "ALIGNED-IBRP-LVG-08-MY"),
    Check::MyLvg09 => crate::my_checks::check_my_tax_fires(inv, "LVG", "ALIGNED-IBRP-LVG-09-MY", true),
    Check::MyE09 => crate::my_checks::check_my_tax_fires(inv, "E", "ALIGNED-IBRP-E-09-MY", false),
    Check::MyTtx09 => crate::my_checks::check_my_tax_fires(inv, "TTX", "ALIGNED-IBRP-TTX-09-MY", false),
    Check::CheckMyOExclusive => crate::my_checks::check_my_o_exclusive_fires(inv),
    Check::My002 => crate::my_checks::my_002_fires(inv),
    Check::My046 => false,
    Check::My047 => crate::my_checks::my_047_fires(inv),
    Check::My048 => crate::my_checks::my_048_fires(inv),
    Check::MyHvg10 => crate::my_checks::check_my_no_exemption_fires(inv, "HVG", "ALIGNED-IBRP-HVG-10-MY"),
    Check::MyLvg10 => crate::my_checks::check_my_no_exemption_fires(inv, "LVG", "ALIGNED-IBRP-LVG-10-MY"),
    Check::MyTtx08 => crate::my_checks::my_ttx_08_fires(inv),
    Check::MyE05 => crate::my_checks::my_e_05_fires(inv),
    Check::MyE08 => crate::my_checks::check_my_taxable_fires(inv, "E", "ALIGNED-IBRP-E-08-MY"),
    Check::MyO09 => crate::my_checks::check_my_tax_fires(inv, "O", "ALIGNED-IBRP-O-09-MY", false),
    Check::BrCl01 => crate::code_checks::br_cl_01_fires(inv),
    Check::BrCl04 => crate::code_checks::br_cl_04_fires(inv),
    Check::BrCl05 => crate::code_checks::br_cl_05_fires(inv),
    Check::BrCl14 => false,
    Check::BrCl06 => crate::code_checks::br_cl_06_fires(inv),
    Check::BrCl13 => crate::code_checks::br_cl_13_fires(inv),
    Check::BrCl15 => crate::code_checks::br_cl_15_fires(inv),
    Check::BrCl16 => crate::code_checks::br_cl_16_fires(inv),
    Check::BrCl19 => crate::code_checks::br_cl_19_fires(inv),
    Check::BrCl20 => crate::code_checks::br_cl_20_fires(inv),
    Check::BrCl17 => crate::code_checks::br_cl_17_fires(inv),
    Check::BrCl18 => crate::code_checks::br_cl_18_fires(inv),
    Check::BrCl22 => crate::code_checks::br_cl_22_fires(inv),
    Check::BrCl23 => crate::code_checks::br_cl_23_fires(inv),
    Check::BrCl24 => crate::code_checks::br_cl_24_fires(inv),
    Check::BrCl25 => false,
    Check::BrDecPass => false,
    Check::R001 => crate::peppol_checks::r001_fires(inv),
    Check::R007 => crate::peppol_checks::r007_fires(inv),
    Check::R004 => crate::peppol_checks::r004_fires(inv),
    Check::R003 => crate::peppol_checks::r003_fires(inv),
    Check::R010 => crate::peppol_checks::r010_fires(inv),
    Check::R020 => crate::peppol_checks::r020_fires(inv),
    Check::R005 => crate::peppol_checks::r005_fires(inv),
    Check::R055 => crate::peppol_checks::r055_fires(inv),
    Check::R061 => crate::peppol_checks::r061_fires(inv),
    Check::P0100 => crate::peppol_checks::p0100_fires(inv),
    Check::P0104 => crate::peppol_checks::vatex_pair_fires(inv, "VATEX-EU-G", "G", "PEPPOL-EN16931-P0104"),
    Check::P0105 => crate::peppol_checks::vatex_pair_fires(inv, "VATEX-EU-O", "O", "PEPPOL-EN16931-P0105"),
    Check::P0106 => crate::peppol_checks::vatex_pair_fires(inv, "VATEX-EU-IC", "K", "PEPPOL-EN16931-P0106"),
    Check::P0107 => crate::peppol_checks::vatex_pair_fires(inv, "VATEX-EU-AE", "AE", "PEPPOL-EN16931-P0107"),
    Check::P0108 => crate::peppol_checks::vatex_pair_fires(inv, "VATEX-EU-D", "E", "PEPPOL-EN16931-P0108"),
    Check::P0109 => crate::peppol_checks::vatex_pair_fires(inv, "VATEX-EU-F", "E", "PEPPOL-EN16931-P0109"),
    Check::P0110 => crate::peppol_checks::vatex_pair_fires(inv, "VATEX-EU-I", "E", "PEPPOL-EN16931-P0110"),
    Check::P0111 => crate::peppol_checks::vatex_pair_fires(inv, "VATEX-EU-J", "E", "PEPPOL-EN16931-P0111"),
    Check::R120 => crate::peppol_checks::r120_fires(inv),
    Check::R040 => false,
    Check::R046 => crate::peppol_checks::r046_fires(inv),
    Check::R121 => crate::peppol_checks::r121_fires(inv),
    _ => false,
    }
}

/// Where the contract of rule `c` states exactly when it appends a finding.
#[verifier::opaque]
pub open spec fn rule_bound(c: Check, inv: Invoice) -> bool {
    match c {
    Check::SpecLookup => crate::checks::spec_lookup_bound(inv),
    Check::CoreProcess01 => crate::checks::core_process_01_bound(inv),
    Check::IbrSr63 => crate::checks::ibr_sr_63_bound(inv),
    Check::Br01 => crate::checks::br_01_bound(inv),
    Check::Br02 => crate::checks::br_02_bound(inv),
    Check::Br03 => crate::checks::br_03_bound(inv),
    Check::Br04 => crate::checks::br_04_bound(inv),
    Check::Br08 => crate::checks::br_08_bound(inv),
    Check::Br09 => crate::checks::br_09_bound(inv),
    Check::Br10 => crate::checks::br_10_bound(inv),
    Check::Br11 => crate::checks::br_11_bound(inv),
    Check::Br21 => crate::item_checks::br_21_bound(inv),
    Check::Br25 => crate::item_checks::br_25_bound(inv),
    Check::Br22 => crate::item_checks::br_22_bound(inv),
    Check::Br23 => crate::item_checks::br_23_bound(inv),
    Check::Br24 => true,
    Check::Br26 => crate::item_checks::br_26_bound(inv),
    Check::Br27 => crate::item_checks::br_27_bound(inv),
    Check::Br28 => crate::item_checks::br_28_bound(inv),
    Check::Br51 => crate::checks::br_51_bound(inv),
    Check::Br17 => crate::checks::br_17_bound(inv),
    Check::Br18 => crate::checks::br_18_bound(inv),
    Check::Br20 => crate::checks::br_20_bound(inv),
    Check::Br56 => crate::checks::br_56_bound(inv),
    Check::Br29 => crate::checks::br_29_bound(inv),
    Check::Br30 => crate::item_checks::br_30_bound(inv),
    Check::Br52 => crate::item_checks::br_52_bound(inv),
    Check::Br54 => crate::item_checks::br_54_bound(inv),
    Check::Br55 => crate::item_checks::br_55_bound(inv),
    Check::Br57 => crate::checks::br_57_bound(inv),
    Check::Br62 => crate::checks::br_62_bound(inv),
    Check::Br63 => crate::checks::br_63_bound(inv),
    Check::Br64 => crate::item_checks::br_64_bound(inv),
    Check::Br65 => crate::item_checks::br_65_bound(inv),
    Check::BrCo09 => false,
    Check::BrCo19 => crate::checks::br_co_19_bound(inv),
    Check::BrCo20 => crate::item_checks::br_co_20_bound(inv),
    Check::BrCo21 => crate::item_checks::br_co_21_bound(inv),
    Check::BrCo22 => crate::item_checks::br_co_22_bound(inv),
    Check::BrCo23 => crate::item_checks::br_co_23_bound(inv),
    Check::BrCo24 => crate::item_checks::br_co_24_bound(inv),
    Check::Br12 => crate::checks::br_12_bound(inv),
    Check::Br13 => crate::checks::br_13_bound(inv),
    Check::Br14 => crate::checks::br_14_bound(inv),
    Check::Br15 => crate::checks::br_15_bound(inv),
    Check::Br19 => crate::checks::br_19_bound(inv),
    Check::Br31 => true,
    Check::Br32 => crate::item_checks::br_32_bound(inv),
    Check::Br33 => crate::item_checks::br_33_bound(inv),
    Check::Br36 => true,
    Check::Br37 => crate::item_checks::br_37_bound(inv),
    Check::Br38 => crate::item_checks::br_38_bound(inv),
    Check::Br41 => true,
    Check::Br42 => crate::item_checks::br_42_bound(inv),
    Check::Br43 => true,
    Check::Br44 => crate::item_checks::br_44_bound(inv),
    Check::Br45 => true,
    Check::Br46 => true,
    Check::Br47 => crate::item_checks::br_47_bound(inv),
    Check::Br48 => crate::item_checks::br_48_bound(inv),
    Check::Br49 => crate::checks::br_49_bound(inv),
    Check::Br50 => crate::checks::br_50_bound(inv),
    Check::Br61 => crate::checks::br_61_bound(inv),
    Check::BrCo26 => crate::checks::br_co_26_bound(inv),
    Check::BrCo03 => crate::checks::br_co_03_bound(inv),
    Check::BrCoNlp => true,
    Check::Br05 => crate::checks::br_05_bound(inv),
    Check::Br53 => crate::checks::br_53_bound(inv),
    Check::Br06 => crate::checks::br_06_bound(inv),
    Check::Br07 => crate::checks::br_07_bound(inv),
    Check::Br16 => crate::checks::br_16_bound(inv),
    Check::BrCo04 => crate::item_checks::br_co_04_bound(inv),
    Check::BrCo10 => crate::total_checks::br_co_10_bound(inv),
    Check::BrCo11 => crate::total_checks::br_co_11_bound(inv),
    Check::BrCo12 => crate::total_checks::br_co_12_bound(inv),
    Check::BrCo13 => crate::total_checks::br_co_13_bound(inv),
    Check::BrCo14 => crate::total_checks::br_co_14_bound(inv),
    Check::BrCo15 => crate::total_checks::br_co_15_bound(inv),
    Check::BrCo16 => crate::total_checks::br_co_16_bound(inv),
    Check::BrCo17 => crate::total_checks::br_co_17_bound(inv),
    Check::PintTax => crate::item_checks::pint_tax_bound(inv),
    Check::Ibr02My => crate::checks::ibr_02_my_bound(inv),
    Check::Ibr03My => crate::checks::ibr_03_my_bound(inv),
    Check::Ibr04My => crate::checks::ibr_04_my_bound(inv),
    Check::IbrCl05My => crate::checks::ibr_cl_05_my_bound(inv),
    Check::AlignedIbrpCl01My => crate::item_checks::aligned_ibrp_cl_01_my_bound(inv),
    Check::BrCo18 => crate::family_checks::br_co_18_bound(inv),
    Check::BrS01 => crate::family_checks::check_groups_bound(inv, crate::category::family(VatCategory::Standard), "BR-S-01"),
    Check::BrS02 => crate::family_checks::check_identifiers_in_bound(inv, crate::category::family(VatCategory::Standard), "BR-S-02", 0),
    Check::BrS03 => crate::family_checks::check_identifiers_in_bound(inv, crate::category::family(VatCategory::Standard), "BR-S-03", 1),
    Check::BrS04 => crate::family_checks::check_identifiers_in_bound(inv, crate::category::family(VatCategory::Standard), "BR-S-04", 2),
    Check::BrS05 => crate::family_checks::check_rate_line_bound(inv, crate::category::family(VatCategory::Standard), "BR-S-05"),
    Check::BrS06 => crate::family_checks::check_rate_ac_bound(inv, crate::category::family(VatCategory::Standard), "BR-S-06", false),
    Check::BrS07 => crate::family_checks::check_rate_ac_bound(inv, crate::category::family(VatCategory::Standard), "BR-S-07", true),
    Check::BrS08 => crate::family_checks::check_taxable_bound(inv, crate::category::family(VatCategory::Standard), "BR-S-08"),
    Check::BrS09 => crate::family_checks::check_tax_bound(inv, crate::category::family(VatCategory::Standard), "BR-S-09"),
    Check::BrS10 => crate::family_checks::check_exemption_bound(inv, crate::category::family(VatCategory::Standard), "BR-S-10"),
    Check::BrZ01 => crate::family_checks::check_groups_bound(inv, crate::category::family(VatCategory::ZeroRated), "BR-Z-01"),
    Check::BrZ02 => crate::family_checks::check_identifiers_in_bound(inv, crate::category::family(VatCategory::ZeroRated), "BR-Z-02", 0),
    Check::BrZ03 => crate::family_checks::check_identifiers_in_bound(inv, crate::category::family(VatCategory::ZeroRated), "BR-Z-03", 1),
    Check::BrZ04 => crate::family_checks::check_identifiers_in_bound(inv, crate::category::family(VatCategory::ZeroRated), "BR-Z-04", 2),
    Check::BrZ05 => crate::family_checks::check_rate_line_bound(inv, crate::category::family(VatCategory::ZeroRated), "BR-Z-05"),
    Check::BrZ06 => crate::family_checks::check_rate_ac_bound(inv, crate::category::family(VatCategory::ZeroRated), "BR-Z-06", false),
    Check::BrZ07 => crate::family_checks::check_rate_ac_bound(inv, crate::category::family(VatCategory::ZeroRated), "BR-Z-07", true),
    Check::BrZ08 => crate::family_checks::check_taxable_bound(inv, crate::category::family(VatCategory::ZeroRated), "BR-Z-08"),
    Check::BrZ09 => crate::family_checks::check_tax_bound(inv, crate::category::family(VatCategory::ZeroRated), "BR-Z-09"),
    Check::BrZ10 => crate::family_checks::check_exemption_bound(inv, crate::category::family(VatCategory::ZeroRated), "BR-Z-10"),
    Check::BrE01 => crate::family_checks::check_groups_bound(inv, crate::category::family(VatCategory::Exempt), "BR-E-01"),
    Check::BrE02 => crate::family_checks::check_identifiers_in_bound(inv, crate::category::family(VatCategory::Exempt), "BR-E-02", 0),
    Check::BrE03 => crate::family_checks::check_identifiers_in_bound(inv, crate::category::family(VatCategory::Exempt), "BR-E-03", 1),
    Check::BrE04 => crate::family_checks::check_identifiers_in_bound(inv, crate::category::family(VatCategory::Exempt), "BR-E-04", 2),
    Check::BrE05 => crate::family_checks::check_rate_line_bound(inv, crate::category::family(VatCategory::Exempt), "BR-E-05"),
    Check::BrE06 => crate::family_checks::check_rate_ac_bound(inv, crate::category::family(VatCategory::Exempt), "BR-E-06", false),
    Check::BrE07 => crate::family_checks::check_rate_ac_bound(inv, crate::category::family(VatCategory::Exempt), "BR-E-07", true),
    Check::BrE08 => crate::family_checks::check_taxable_bound(inv, crate::category::family(VatCategory::Exempt), "BR-E-08"),
    Check::BrE09 => crate::family_checks::check_tax_bound(inv, crate::category::family(VatCategory::Exempt), "BR-E-09"),
    Check::BrE10 => crate::family_checks::check_exemption_bound(inv, crate::category::family(VatCategory::Exempt), "BR-E-10"),
    Check::BrAe01 => crate::family_checks::check_groups_bound(inv, crate::category::family(VatCategory::ReverseCharge), "BR-AE-01"),
    Check::BrAe02 => crate::family_checks::check_identifiers_in_bound(inv, crate::category::family(VatCategory::ReverseCharge), "BR-AE-02", 0),
    Check::BrAe03 => crate::family_checks::check_identifiers_in_bound(inv, crate::category::family(VatCategory::ReverseCharge), "BR-AE-03", 1),
    Check::BrAe04 => crate::family_checks::check_identifiers_in_bound(inv, crate::category::family(VatCategory::ReverseCharge), "BR-AE-04", 2),
    Check::BrAe05 => crate::family_checks::check_rate_line_bound(inv, crate::category::family(VatCategory::ReverseCharge), "BR-AE-05"),
    Check::BrAe06 => crate::family_checks::check_rate_ac_bound(inv, crate::category::family(VatCategory::ReverseCharge), "BR-AE-06", false),
    Check::BrAe07 => crate::family_checks::check_rate_ac_bound(inv, crate::category::family(VatCategory::ReverseCharge), "BR-AE-07", true),
    Check::BrAe08 => crate::family_checks::check_taxable_bound(inv, crate::category::family(VatCategory::ReverseCharge), "BR-AE-08"),
    Check::BrAe09 => crate::family_checks::check_tax_bound(inv, crate::category::family(VatCategory::ReverseCharge), "BR-AE-09"),
    Check::BrAe10 => crate::family_checks::check_exemption_bound(inv, crate::category::family(VatCategory::ReverseCharge), "BR-AE-10"),
    Check::BrIc01 => crate::family_checks::check_groups_bound(inv, crate::category::family(VatCategory::IntraCommunity), "BR-IC-01"),
    Check::BrIc02 => crate::family_checks::check_identifiers_in_bound(inv, crate::category::family(VatCategory::IntraCommunity), "BR-IC-02", 0),
    Check::BrIc03 => crate::family_checks::check_identifiers_in_bound(inv, crate::category::family(VatCategory::IntraCommunity), "BR-IC-03", 1),
    Check::BrIc04 => crate::family_checks::check_identifiers_in_bound(inv, crate::category::family(VatCategory::IntraCommunity), "BR-IC-04", 2),
    Check::BrIc05 => crate::family_checks::check_rate_line_bound(inv, crate::category::family(VatCategory::IntraCommunity), "BR-IC-05"),
    Check::BrIc06 => crate::family_checks::check_rate_ac_bound(inv, crate::category::family(VatCategory::IntraCommunity), "BR-IC-06", false),
    Check::BrIc07 => crate::family_checks::check_rate_ac_bound(inv, crate::category::family(VatCategory::IntraCommunity), "BR-IC-07", true),
    Check::BrIc11 => crate::family_checks::br_ic_11_bound(inv),
    Check::BrIc12 => crate::family_checks::br_ic_12_bound(inv),
    Check::BrIc08 => crate::family_checks::check_taxable_bound(inv, crate::category::family(VatCategory::IntraCommunity), "BR-IC-08"),
    Check::BrIc09 => crate::family_checks::check_tax_bound(inv, crate::category::family(VatCategory::IntraCommunity), "BR-IC-09"),
    Check::BrIc10 => crate::family_checks::check_exemption_bound(inv, crate::category::family(VatCategory::IntraCommunity), "BR-IC-10"),
    Check::BrG01 => crate::family_checks::check_groups_bound(inv, crate::category::family(VatCategory::Export), "BR-G-01"),
    Check::BrG02 => crate::family_checks::check_identifiers_in_bound(inv, crate::category::family(VatCategory::Export), "BR-G-02", 0),
    Check::BrG03 => crate::family_checks::check_identifiers_in_bound(inv, crate::category::family(VatCategory::Export), "BR-G-03", 1),
    Check::BrG04 => crate::family_checks::check_identifiers_in_bound(inv, crate::category::family(VatCategory::Export), "BR-G-04", 2),
    Check::BrG05 => crate::family_checks::check_rate_line_bound(inv, crate::category::family(VatCategory::Export), "BR-G-05"),
    Check::BrG06 => crate::family_checks::check_rate_ac_bound(inv, crate::category::family(VatCategory::Export), "BR-G-06", false),
    Check::BrG07 => crate::family_checks::check_rate_ac_bound(inv, crate::category::family(VatCategory::Export), "BR-G-07", true),
    Check::BrG08 => crate::family_checks::check_taxable_bound(inv, crate::category::family(VatCategory::Export), "BR-G-08"),
    Check::BrG09 => crate::family_checks::check_tax_bound(inv, crate::category::family(VatCategory::Export), "BR-G-09"),
    Check::BrG10 => crate::family_checks::check_exemption_bound(inv, crate::category::family(VatCategory::Export), "BR-G-10"),
    Check::BrO01 => crate::family_checks::check_groups_bound(inv, crate::category::family(VatCategory::OutOfScope), "BR-O-01"),
    Check::BrO02 => crate::family_checks::check_identifiers_in_bound(inv, crate::category::family(VatCategory::OutOfScope), "BR-O-02", 0),
    Check::BrO03 => crate::family_checks::check_identifiers_in_bound(inv, crate::category::family(VatCategory::OutOfScope), "BR-O-03", 1),
    Check::BrO04 => crate::family_checks::check_identifiers_in_bound(inv, crate::category::family(VatCategory::OutOfScope), "BR-O-04", 2),
    Check::BrO05 => crate::family_checks::check_rate_line_bound(inv, crate::category::family(VatCategory::OutOfScope), "BR-O-05"),
    Check::BrO06 => crate::family_checks::check_rate_ac_bound(inv, crate::category::family(VatCategory::OutOfScope), "BR-O-06", false),
    Check::BrO07 => crate::family_checks::check_rate_ac_bound(inv, crate::category::family(VatCategory::OutOfScope), "BR-O-07", true),
    Check::BrO08 => crate::family_checks::check_taxable_bound(inv, crate::category::family(VatCategory::OutOfScope), "BR-O-08"),
    Check::BrO09 => crate::family_checks::check_tax_bound(inv, crate::category::family(VatCategory::OutOfScope), "BR-O-09"),
    Check::BrO10 => crate::family_checks::check_exemption_bound(inv, crate::category::family(VatCategory::OutOfScope), "BR-O-10"),
    Check::BrO11 => crate::family_checks::br_o_11_bound(inv),
    Check::BrO12 => crate::family_checks::br_o_12_bound(inv),
    Check::BrO13 => crate::family_checks::br_o_13_bound(inv),
    Check::BrO14 => crate::family_checks::br_o_14_bound(inv),
    Check::BrAf01 => crate::family_checks::check_groups_bound(inv, crate::category::family(VatCategory::CanaryIslands), "BR-AF-01"),
    Check::BrAf02 => crate::family_checks::check_identifiers_in_bound(inv, crate::category::family(VatCategory::CanaryIslands), "BR-AF-02", 0),
    Check::BrAf03 => crate::family_checks::check_identifiers_in_bound(inv, crate::category::family(VatCategory::CanaryIslands), "BR-AF-03", 1),
    Check::BrAf04 => crate::family_checks::check_identifiers_in_bound(inv, crate::category::family(VatCategory::CanaryIslands), "BR-AF-04", 2),
    Check::BrAf05 => crate::family_checks::check_rate_line_bound(inv, crate::category::family(VatCategory::CanaryIslands), "BR-AF-05"),
    Check::BrAf06 => crate::family_checks::check_rate_ac_bound(inv, crate::category::family(VatCategory::CanaryIslands), "BR-AF-06", false),
    Check::BrAf07 => crate::family_checks::check_rate_ac_bound(inv, crate::category::family(VatCategory::CanaryIslands), "BR-AF-07", true),
    Check::BrAf08 => crate::family_checks::check_taxable_bound(inv, crate::category::family(VatCategory::CanaryIslands), "BR-AF-08"),
    Check::BrAf09 => crate::family_checks::check_tax_bound(inv, crate::category::family(VatCategory::CanaryIslands), "BR-AF-09"),
    Check::BrAf10 => crate::family_checks::check_exemption_bound(inv, crate::category::family(VatCategory::CanaryIslands), "BR-AF-10"),
    Check::BrAg01 => crate::family_checks::check_groups_bound(inv, crate::category::family(VatCategory::CeutaMelilla), "BR-AG-01"),
    Check::BrAg02 => crate::family_checks::check_identifiers_in_bound(inv, crate::category::family(VatCategory::CeutaMelilla), "BR-AG-02", 0),
    Check::BrAg03 => crate::family_checks::check_identifiers_in_bound(inv, crate::category::family(VatCategory::CeutaMelilla), "BR-AG-03", 1),
    Check::BrAg04 => crate::family_checks::check_identifiers_in_bound(inv, crate::category::family(VatCategory::CeutaMelilla), "BR-AG-04", 2),
    Check::BrAg05 => crate::family_checks::check_rate_line_bound(inv, crate::category::family(VatCategory::CeutaMelilla), "BR-AG-05"),
    Check::BrAg06 => crate::family_checks::check_rate_ac_bound(inv, crate::category::family(VatCategory::CeutaMelilla), "BR-AG-06", false),
    Check::BrAg07 => crate::family_checks::check_rate_ac_bound(inv, crate::category::family(VatCategory::CeutaMelilla), "BR-AG-07", true),
    Check::BrAg08 => crate::family_checks::check_taxable_bound(inv, crate::category::family(VatCategory::CeutaMelilla), "BR-AG-08"),
    Check::BrAg09 => crate::family_checks::check_tax_bound(inv, crate::category::family(VatCategory::CeutaMelilla), "BR-AG-09"),
    Check::BrAg10 => crate::family_checks::check_exemption_bound(inv, crate::category::family(VatCategory::CeutaMelilla), "BR-AG-10"),
    Check::BrB01 => crate::family_checks::br_b_01_bound(inv),
    Check::CheckBNotWithS => crate::family_checks::check_b_not_with_s_bound(inv),
    Check::MySa01 => crate::my_checks::check_my_groups_bound(inv, "SA", "ALIGNED-IBRP-SA-01-MY"),
    Check::MySa08 => crate::my_checks::check_my_taxable_bound(inv, "SA", "ALIGNED-IBRP-SA-08-MY"),
    Check::MySa09 => crate::my_checks::check_my_tax_bound(inv, "SA", "ALIGNED-IBRP-SA-09-MY", true),
    Check::MySa10 => crate::my_checks::check_my_no_exemption_bound(inv, "SA", "ALIGNED-IBRP-SA-10-MY"),
    Check::MySe01 => crate::my_checks::check_my_groups_bound(inv, "SE", "ALIGNED-IBRP-SE-01-MY"),
    Check::MySe08 => crate::my_checks::check_my_taxable_bound(inv, "SE", "ALIGNED-IBRP-SE-08-MY"),
    Check::MySe09 => crate::my_checks::check_my_tax_bound(inv, "SE", "ALIGNED-IBRP-SE-09-MY", true),
    Check::MySe10 => crate::my_checks::check_my_no_exemption_bound(inv, "SE", "ALIGNED-IBRP-SE-10-MY"),
    Check::MyHvg08 => crate::my_checks::check_my_taxable_bound(inv, "HVG", "ALIGNED-IBRP-HVG-08-MY"),
    Check::MyHvg09 => crate::my_checks::check_my_tax_bound(inv, "HVG", "ALIGNED-IBRP-HVG-09-MY", true),
    Check::MyLvg08 => crate::my_checks::check_my_taxable_bound(inv, "LVG", "ALIGNED-IBRP-LVG-08-MY"),
    Check::MyLvg09 => crate::my_checks::check_my_tax_bound(inv, "LVG", "ALIGNED-IBRP-LVG-09-MY", true),
    Check::MyE09 => crate::my_checks::check_my_tax_bound(inv, "E", "ALIGNED-IBRP-E-09-MY", false),
    Check::MyTtx09 => crate::my_checks::check_my_tax_bound(inv, "TTX", "ALIGNED-IBRP-TTX-09-MY", false),
    Check::CheckMyOExclusive => crate::my_checks::check_my_o_exclusive_bound(inv),
    Check::My002 => crate::my_checks::my_002_bound(inv),
    Check::My046 => true,
    Check::My047 => crate::my_checks::my_047_bound(inv),
    Check::My048 => crate::my_checks::my_048_bound(inv),
    Check::MyHvg10 => crate::my_checks::check_my_no_exemption_bound(inv, "HVG", "ALIGNED-IBRP-HVG-10-MY"),
    Check::MyLvg10 => crate::my_checks::check_my_no_exemption_bound(inv, "LVG", "ALIGNED-IBRP-LVG-10-MY"),
    Check::MyTtx08 => crate::my_checks::my_ttx_08_bound(inv),
    Check::MyE05 => crate::my_checks::my_e_05_bound(inv),
    Check::MyE08 => crate::my_checks::check_my_taxable_bound(inv, "E", "ALIGNED-IBRP-E-08-MY"),
    Check::MyO09 => crate::my_checks::check_my_tax_bound(inv, "O", "ALIGNED-IBRP-O-09-MY", false),
    Check::BrCl01 => crate::code_checks::br_cl_01_bound(inv),
    Check::BrCl04 => crate::code_checks::br_cl_04_bound(inv),
    Check::BrCl05 => crate::code_checks::br_cl_05_bound(inv),
    Check::BrCl14 => false,
    Check::BrCl06 => crate::code_checks::br_cl_06_bound(inv),
    Check::BrCl13 => crate::code_checks::br_cl_13_bound(inv),
    Check::BrCl15 => crate::code_checks::br_cl_15_bound(inv),
    Check::BrCl16 => crate::code_checks::br_cl_16_bound(inv),
    Check::BrCl19 => crate::code_checks::br_cl_19_bound(inv),
    Check::BrCl20 => crate::code_checks::br_cl_20_bound(inv),
    Check::BrCl17 => crate::code_checks::br_cl_17_bound(inv),
    Check::BrCl18 => crate::code_checks::br_cl_18_bound(inv),
    Check::BrCl22 => crate::code_checks::br_cl_22_bound(inv),
    Check::BrCl23 => crate::code_checks::br_cl_23_bound(inv),
    Check::BrCl24 => crate::code_checks::br_cl_24_bound(inv),
    Check::BrCl25 => false,
    Check::BrDecPass => true,
    Check::R001 => crate::peppol_checks::r001_bound(inv),
    Check::R007 => crate::peppol_checks::r007_bound(inv),
    Check::R004 => crate::peppol_checks::r004_bound(inv),
    Check::R003 => crate::peppol_checks::r003_bound(inv),
    Check::R010 => crate::peppol_checks::r010_bound(inv),
    Check::R020 => crate::peppol_checks::r020_bound(inv),
    Check::R005 => crate::peppol_checks::r005_bound(inv),
    Check::R055 => crate::peppol_checks::r055_bound(inv),
    Check::R061 => crate::peppol_checks::r061_bound(inv),
    Check::P0100 => crate::peppol_checks::p0100_bound(inv),
    Check::P0104 => crate::peppol_checks::vatex_pair_bound(inv, "VATEX-EU-G", "G", "PEPPOL-EN16931-P0104"),
    Check::P0105 => crate::peppol_checks::vatex_pair_bound(inv, "VATEX-EU-O", "O", "PEPPOL-EN16931-P0105"),
    Check::P0106 => crate::peppol_checks::vatex_pair_bound(inv, "VATEX-EU-IC", "K", "PEPPOL-EN16931-P0106"),
    Check::P0107 => crate::peppol_checks::vatex_pair_bound(inv, "VATEX-EU-AE", "AE", "PEPPOL-EN16931-P0107"),
    Check::P0108 => crate::peppol_checks::vatex_pair_bound(inv, "VATEX-EU-D", "E", "PEPPOL-EN16931-P0108"),
    Check::P0109 => crate::peppol_checks::vatex_pair_bound(inv, "VATEX-EU-F", "E", "PEPPOL-EN16931-P0109"),
    Check::P0110 => crate::peppol_checks::vatex_pair_bound(inv, "VATEX-EU-I", "E", "PEPPOL-EN16931-P0110"),
    Check::P0111 => crate::peppol_checks::vatex_pair_bound(inv, "VATEX-EU-J", "E", "PEPPOL-EN16931-P0111"),
    Check::R120 => crate::peppol_checks::r120_bound(inv),
    Check::R040 => false,
    Check::R046 => crate::peppol_checks::r046_bound(inv),
    Check::R121 => crate::peppol_checks::r121_bound(inv),
    _ => true,
    }
}

pub open spec fn check_silent(c: Check) -> bool {
    c == Check::Br24 || c == Check::Br31 || c == Check::Br36 || c == Check::Br41 || c == Check::Br43 || c == Check::Br45 || c == Check::Br46 || c == Check::BrCoNlp || c == Check::My046 || c == Check::BrDecPass
}

#[verifier::rlimit(100)]
fn run_part_0(c: Check, inv: &Invoice, report: &mut Report)
    requires
        c == Check::SpecLookup || c == Check::CoreProcess01 || c == Check::IbrSr63 || c == Check::Br01 || c == Check::Br02 || c == Check::Br03 || c == Check::Br04 || c == Check::Br08 || c == Check::Br09 || c == Check::Br10 || c == Check::Br11 || c == Check::Br21 || c == Check::Br25 || c == Check::Br22 || c == Check::Br23 || c == Check::Br24 || c == Check::Br26 || c == Check::Br27 || c == Check::Br28 || c == Check::Br51 || c == Check::Br17 || c == Check::Br18 || c == Check::Br20 || c == Check::Br56 || c == Check::Br29,
    ensures
        emitted(*old(report), *final(report), check_id(c)),
        check_silent(c) ==> *final(report) == *old(report),
        rule_bound(c, *inv) ==> fires_some(*old(report), *final(report), rule_fires(c, *inv)),
{
    proof {
        lemma_emitted_none(*report, check_id(c));
        reveal(rule_fires);
        reveal(rule_bound);
        reveal(check_id);
    }
    match c {
        Check::SpecLookup => crate::checks::spec_lookup(inv, report),
        Check::CoreProcess01 => crate::checks::core_process_01(inv, report),
        Check::IbrSr63 => crate::checks::ibr_sr_63(inv, report),
        Check::Br01 => crate::checks::br_01(inv, report),
        Check::Br02 => crate::checks::br_02(inv, report),
        Check::Br03 => crate::checks::br_03(inv, report),
        Check::Br04 => crate::checks::br_04(inv, report),
        Check::Br08 => crate::checks::br_08(inv, report),
        Check::Br09 => crate::checks::br_09(inv, report),
        Check::Br10 => crate::checks::br_10(inv, report),
        Check::Br11 => crate::checks::br_11(inv, report),
        Check::Br21 => crate::item_checks::br_21(inv, report),
        Check::Br25 => crate::item_checks::br_25(inv, report),
        Check::Br22 => crate::item_checks::br_22(inv, report),
        Check::Br23 => crate::item_checks::br_23(inv, report),
        Check::Br24 => no_finding(inv, report),
        Check::Br26 => crate::item_checks::br_26(inv, report),
        Check::Br27 => crate::item_checks::br_27(inv, report),
        Check::Br28 => crate::item_checks::br_28(inv, report),
        Check::Br51 => crate::checks::br_51(inv, report),
        Check::Br17 => crate::checks::br_17(inv, report),
        Check::Br18 => crate::checks::br_18(inv, report),
        Check::Br20 => crate::checks::br_20(inv, report),
        Check::Br56 => crate::checks::br_56(inv, report),
        Check::Br29 => crate::checks::br_29(inv, report),
        _ => {},
    }
}

#[verifier::rlimit(100)]
fn run_part_1(c: Check, inv: &Invoice, report: &mut Report)
    requires
        c == Check::Br30 || c == Check::Br52 || c == Check::Br54 || c == Check::Br55 || c == Check::Br57 || c == Check::Br62 || c == Check::Br63 || c == Check::Br64 || c == Check::Br65 || c == Check::BrCo09 || c == Check::BrCo19 || c == Check::BrCo20 || c == Check::BrCo21 || c == Check::BrCo22 || c == Check::BrCo23 || c == Check::BrCo24 || c == Check::Br12 || c == Check::Br13 || c == Check::Br14 || c == Check::Br15 || c == Check::Br19 || c == Check::Br31 || c == Check::Br32 || c == Check::Br33 || c == Check::Br36,
    ensures
        emitted(*old(report), *final(report), check_id(c)),
        check_silent(c) ==> *final(report) == *old(report),
        rule_bound(c, *inv) ==> fires_some(*old(report), *final(report), rule_fires(c, *inv)),
{
    proof {
        lemma_emitted_none(*report, check_id(c));
        reveal(rule_fires);
        reveal(rule_bound);
        reveal(check_id);
    }
    match c {
        Check::Br30 => crate::item_checks::br_30(inv, report),
        Check::Br52 => crate::item_checks::br_52(inv, report),
        Check::Br54 => crate::item_checks::br_54(inv, report),
        Check::Br55 => crate::item_checks::br_55(inv, report),
        Check::Br57 => crate::checks::br_57(inv, report),
        Check::Br62 => crate::checks::br_62(inv, report),
        Check::Br63 => crate::checks::br_63(inv, report),
        Check::Br64 => crate::item_checks::br_64(inv, report),
        Check::Br65 => crate::item_checks::br_65(inv, report),
        Check::BrCo09 => crate::item_checks::br_co_09(inv, report),
        Check::BrCo19 => crate::checks::br_co_19(inv, report),
        Check::BrCo20 => crate::item_checks::br_co_20(inv, report),
        Check::BrCo21 => crate::item_checks::br_co_21(inv, report),
        Check::BrCo22 => crate::item_checks::br_co_22(inv, report),
        Check::BrCo23 => crate::item_checks::br_co_23(inv, report),
        Check::BrCo24 => crate::item_checks::br_co_24(inv, report),
        Check::Br12 => crate::checks::br_12(inv, report),
        Check::Br13 => crate::checks::br_13(inv, report),
        Check::Br14 => crate::checks::br_14(inv, report),
        Check::Br15 => crate::checks::br_15(inv, report),
        Check::Br19 => crate::checks::br_19(inv, report),
        Check::Br31 => no_finding(inv, report),
        Check::Br32 => crate::item_checks::br_32(inv, report),
        Check::Br33 => crate::item_checks::br_33(inv, report),
        Check::Br36 => no_finding(inv, report),
        _ => {},
    }
}

#[verifier::rlimit(100)]
fn run_part_2(c: Check, inv: &Invoice, report: &mut Report)
    requires
        c == Check::Br37 || c == Check::Br38 || c == Check::Br41 || c == Check::Br42 || c == Check::Br43 || c == Check::Br44 || c == Check::Br45 || c == Check::Br46 || c == Check::Br47 || c == Check::Br48 || c == Check::Br49 || c == Check::Br50 || c == Check::Br61 || c == Check::BrCo26 || c == Check::BrCo03 || c == Check::BrCoNlp || c == Check::Br05 || c == Check::Br53 || c == Check::Br06 || c == Check::Br07 || c == Check::Br16 || c == Check::BrCo04 || c == Check::BrCo10 || c == Check::BrCo11 || c == Check::BrCo12,
    ensures
        emitted(*old(report), *final(report), check_id(c)),
        check_silent(c) ==> *final(report) == *old(report),
        rule_bound(c, *inv) ==> fires_some(*old(report), *final(report), rule_fires(c, *inv)),
{
    proof {
        lemma_emitted_none(*report, check_id(c));
        reveal(rule_fires);
        reveal(rule_bound);
        reveal(check_id);
    }
    match c {
        Check::Br37 => crate::item_checks::br_37(inv, report),
        Check::Br38 => crate::item_checks::br_38(inv, report),
        Check::Br41 => no_finding(inv, report),
        Check::Br42 => crate::item_checks::br_42(inv, report),
        Check::Br43 => no_finding(inv, report),
        Check::Br44 => crate::item_checks::br_44(inv, report),
        Check::Br45 => no_finding(inv, report),
        Check::Br46 => no_finding(inv, report),
        Check::Br47 => crate::item_checks::br_47(inv, report),
        Check::Br48 => crate::item_checks::br_48(inv, report),
        Check::Br49 => crate::checks::br_49(inv, report),
        Check::Br50 => crate::checks::br_50(inv, report),
        Check::Br61 => crate::checks::br_61(inv, report),
        Check::BrCo26 => crate::checks::br_co_26(inv, report),
        Check::BrCo03 => crate::checks::br_co_03(inv, report),
        Check::BrCoNlp => no_finding(inv, report),
        Check::Br05 => crate::checks::br_05(inv, report),
        Check::Br53 => crate::checks::br_53(inv, report),
        Check::Br06 => crate::checks::br_06(inv, report),
        Check::Br07 => crate::checks::br_07(inv, report),
        Check::Br16 => crate::checks::br_16(inv, report),
        Check::BrCo04 => crate::item_checks::br_co_04(inv, report),
        Check::BrCo10 => crate::total_checks::br_co_10(inv, report),
        Check::BrCo11 => crate::total_checks::br_co_11(inv, report),
        Check::BrCo12 => crate::total_checks::br_co_12(inv, report),
        _ => {},
    }
}

#[verifier::rlimit(100)]
fn run_part_3(c: Check, inv: &Invoice, report: &mut Report)
    requires
        c == Check::BrCo13 || c == Check::BrCo14 || c == Check::BrCo15 || c == Check::BrCo16 || c == Check::BrCo17 || c == Check::PintTax || c == Check::Ibr02My || c == Check::Ibr03My || c == Check::Ibr04My || c == Check::IbrCl05My || c == Check::AlignedIbrpCl01My || c == Check::BrCo18 || c == Check::BrS01 || c == Check::BrS02 || c == Check::BrS03 || c == Check::BrS04 || c == Check::BrS05 || c == Check::BrS06 || c == Check::BrS07 || c == Check::BrS08 || c == Check::BrS09 || c == Check::BrS10 || c == Check::BrZ01 || c == Check::BrZ02 || c == Check::BrZ03,
    ensures
        emitted(*old(report), *final(report), check_id(c)),
        check_silent(c) ==> *final(report) == *old(report),
        rule_bound(c, *inv) ==> fires_some(*old(report), *final(report), rule_fires(c, *inv)),
{
    proof {
        lemma_emitted_none(*report, check_id(c));
        reveal(rule_fires);
        reveal(rule_bound);
        reveal(check_id);
    }
    match c {
        Check::BrCo13 => crate::total_checks::br_co_13(inv, report),
        Check::BrCo14 => crate::total_checks::br_co_14(inv, report),
        Check::BrCo15 => crate::total_checks::br_co_15(inv, report),
        Check::BrCo16 => crate::total_checks::br_co_16(inv, report),
        Check::BrCo17 => crate::total_checks::br_co_17(inv, report),
        Check::PintTax => crate::item_checks::pint_tax(inv, report),
        Check::Ibr02My => crate::checks::ibr_02_my(inv, report),
        Check::Ibr03My => crate::checks::ibr_03_my(inv, report),
        Check::Ibr04My => crate::checks::ibr_04_my(inv, report),
        Check::IbrCl05My => crate::checks::ibr_cl_05_my(inv, report),
        Check::AlignedIbrpCl01My => crate::item_checks::aligned_ibrp_cl_01_my(inv, report),
        Check::BrCo18 => crate::family_checks::br_co_18(inv, report),
        Check::BrS01 => crate::family_checks::check_groups(inv, report, profile(VatCategory::Standard), "BR-S-01"),
        Check::BrS02 => crate::family_checks::check_identifiers_in(inv, report, profile(VatCategory::Standard), "BR-S-02", 0),
        Check::BrS03 => crate::family_checks::check_identifiers_in(inv, report, profile(VatCategory::Standard), "BR-S-03", 1),
        Check::BrS04 => crate::family_checks::check_identifiers_in(inv, report, profile(VatCategory::Standard), "BR-S-04", 2),
        Check::BrS05 => crate::family_checks::check_rate_line(inv, report, profile(VatCategory::Standard), "BR-S-05"),
        Check::BrS06 => crate::family_checks::check_rate_ac(inv, report, profile(VatCategory::Standard), "BR-S-06", false),
        Check::BrS07 => crate::family_checks::check_rate_ac(inv, report, profile(VatCategory::Standard), "BR-S-07", true),
        Check::BrS08 => crate::family_checks::check_taxable(inv, report, profile(VatCategory::Standard), "BR-S-08"),
        Check::BrS09 => crate::family_checks::check_tax(inv, report, profile(VatCategory::Standard), "BR-S-09"),
        Check::BrS10 => crate::family_checks::check_exemption(inv, report, profile(VatCategory::Standard), "BR-S-10"),
        Check::BrZ01 => crate::family_checks::check_groups(inv, report, profile(VatCategory::ZeroRated), "BR-Z-01"),
        Check::BrZ02 => crate::family_checks::check_identifiers_in(inv, report, profile(VatCategory::ZeroRated), "BR-Z-02", 0),
        Check::BrZ03 => crate::family_checks::check_identifiers_in(inv, report, profile(VatCategory::ZeroRated), "BR-Z-03", 1),
        _ => {},
    }
}

#[verifier::rlimit(100)]
fn run_part_4(c: Check, inv: &Invoice, report: &mut Report)
    requires
        c == Check::BrZ04 || c == Check::BrZ05 || c == Check::BrZ06 || c == Check::BrZ07 || c == Check::BrZ08 || c == Check::BrZ09 || c == Check::BrZ10 || c == Check::BrE01 || c == Check::BrE02 || c == Check::BrE03 || c == Check::BrE04 || c == Check::BrE05 || c == Check::BrE06 || c == Check::BrE07 || c == Check::BrE08 || c == Check::BrE09 || c == Check::BrE10 || c == Check::BrAe01 || c == Check::BrAe02 || c == Check::BrAe03 || c == Check::BrAe04 || c == Check::BrAe05 || c == Check::BrAe06 || c == Check::BrAe07 || c == Check::BrAe08,
    ensures
        emitted(*old(report), *final(report), check_id(c)),
        check_silent(c) ==> *final(report) == *old(report),
        rule_bound(c, *inv) ==> fires_some(*old(report), *final(report), rule_fires(c, *inv)),
{
    proof {
        lemma_emitted_none(*report, check_id(c));
        reveal(rule_fires);
        reveal(rule_bound);
        reveal(check_id);
    }
    match c {
        Check::BrZ04 => crate::family_checks::check_identifiers_in(inv, report, profile(VatCategory::ZeroRated), "BR-Z-04", 2),
        Check::BrZ05 => crate::family_checks::check_rate_line(inv, report, profile(VatCategory::ZeroRated), "BR-Z-05"),
        Check::BrZ06 => crate::family_checks::check_rate_ac(inv, report, profile(VatCategory::ZeroRated), "BR-Z-06", false),
        Check::BrZ07 => crate::family_checks::check_rate_ac(inv, report, profile(VatCategory::ZeroRated), "BR-Z-07", true),
        Check::BrZ08 => crate::family_checks::check_taxable(inv, report, profile(VatCategory::ZeroRated), "BR-Z-08"),
        Check::BrZ09 => crate::family_checks::check_tax(inv, report, profile(VatCategory::ZeroRated), "BR-Z-09"),
        Check::BrZ10 => crate::family_checks::check_exemption(inv, report, profile(VatCategory::ZeroRated), "BR-Z-10"),
        Check::BrE01 => crate::family_checks::check_groups(inv, report, profile(VatCategory::Exempt), "BR-E-01"),
        Check::BrE02 => crate::family_checks::check_identifiers_in(inv, report, profile(VatCategory::Exempt), "BR-E-02", 0),
        Check::BrE03 => crate::family_checks::check_identifiers_in(inv, report, profile(VatCategory::Exempt), "BR-E-03", 1),
        Check::BrE04 => crate::family_checks::check_identifiers_in(inv, report, profile(VatCategory::Exempt), "BR-E-04", 2),
        Check::BrE05 => crate::family_checks::check_rate_line(inv, report, profile(VatCategory::Exempt), "BR-E-05"),
        Check::BrE06 => crate::family_checks::check_rate_ac(inv, report, profile(VatCategory::Exempt), "BR-E-06", false),
        Check::BrE07 => crate::family_checks::check_rate_ac(inv, report, profile(VatCategory::Exempt), "BR-E-07", true),
        Check::BrE08 => crate::family_checks::check_taxable(inv, report, profile(VatCategory::Exempt), "BR-E-08"),
        Check::BrE09 => crate::family_checks::check_tax(inv, report, profile(VatCategory::Exempt), "BR-E-09"),
        Check::BrE10 => crate::family_checks::check_exemption(inv, report, profile(VatCategory::Exempt), "BR-E-10"),
        Check::BrAe01 => crate::family_checks::check_groups(inv, report, profile(VatCategory::ReverseCharge), "BR-AE-01"),
        Check::BrAe02 => crate::family_checks::check_identifiers_in(inv, report, profile(VatCategory::ReverseCharge), "BR-AE-02", 0),
        Check::BrAe03 => crate::family_checks::check_identifiers_in(inv, report, profile(VatCategory::ReverseCharge), "BR-AE-03", 1),
        Check::BrAe04 => crate::family_checks::check_identifiers_in(inv, report, profile(VatCategory::ReverseCharge), "BR-AE-04", 2),
        Check::BrAe05 => crate::family_checks::check_rate_line(inv, report, profile(VatCategory::ReverseCharge), "BR-AE-05"),
        Check::BrAe06 => crate::family_checks::check_rate_ac(inv, report, profile(VatCategory::ReverseCharge), "BR-AE-06", false),
        Check::BrAe07 => crate::family_checks::check_rate_ac(inv, report, profile(VatCategory::ReverseCharge), "BR-AE-07", true),
        Check::BrAe08 => crate::family_checks::check_taxable(inv, report, profile(VatCategory::ReverseCharge), "BR-AE-08"),
        _ => {},
    }
}

#[verifier::rlimit(100)]
fn run_part_5(c: Check, inv: &Invoice, report: &mut Report)
    requires
        c == Check::BrAe09 || c == Check::BrAe10 || c == Check::BrIc01 || c == Check::BrIc02 || c == Check::BrIc03 || c == Check::BrIc04 || c == Check::BrIc05 || c == Check::BrIc06 || c == Check::BrIc07 || c == Check::BrIc11 || c == Check::BrIc12 || c == Check::BrIc08 || c == Check::BrIc09 || c == Check::BrIc10 || c == Check::BrG01 || c == Check::BrG02 || c == Check::BrG03 || c == Check::BrG04 || c == Check::BrG05 || c == Check::BrG06 || c == Check::BrG07 || c == Check::BrG08 || c == Check::BrG09 || c == Check::BrG10 || c == Check::BrO01,
    ensures
        emitted(*old(report), *final(report), check_id(c)),
        check_silent(c) ==> *final(report) == *old(report),
        rule_bound(c, *inv) ==> fires_some(*old(report), *final(report), rule_fires(c, *inv)),
{
    proof {
        lemma_emitted_none(*report, check_id(c));
        reveal(rule_fires);
        reveal(rule_bound);
        reveal(check_id);
    }
    match c {
        Check::BrAe09 => crate::family_checks::check_tax(inv, report, profile(VatCategory::ReverseCharge), "BR-AE-09"),
        Check::BrAe10 => crate::family_checks::check_exemption(inv, report, profile(VatCategory::ReverseCharge), "BR-AE-10"),
        Check::BrIc01 => crate::family_checks::check_groups(inv, report, profile(VatCategory::IntraCommunity), "BR-IC-01"),
        Check::BrIc02 => crate::family_checks::check_identifiers_in(inv, report, profile(VatCategory::IntraCommunity), "BR-IC-02", 0),
        Check::BrIc03 => crate::family_checks::check_identifiers_in(inv, report, profile(VatCategory::IntraCommunity), "BR-IC-03", 1),
        Check::BrIc04 => crate::family_checks::check_identifiers_in(inv, report, profile(VatCategory::IntraCommunity), "BR-IC-04", 2),
        Check::BrIc05 => crate::family_checks::check_rate_line(inv, report, profile(VatCategory::IntraCommunity), "BR-IC-05"),
        Check::BrIc06 => crate::family_checks::check_rate_ac(inv, report, profile(VatCategory::IntraCommunity), "BR-IC-06", false),
        Check::BrIc07 => crate::family_checks::check_rate_ac(inv, report, profile(VatCategory::IntraCommunity), "BR-IC-07", true),
        Check::BrIc11 => crate::family_checks::br_ic_11(inv, report),
        Check::BrIc12 => crate::family_checks::br_ic_12(inv, report),
        Check::BrIc08 => crate::family_checks::check_taxable(inv, report, profile(VatCategory::IntraCommunity), "BR-IC-08"),
        Check::BrIc09 => crate::family_checks::check_tax(inv, report, profile(VatCategory::IntraCommunity), "BR-IC-09"),
        Check::BrIc10 => crate::family_checks::check_exemption(inv, report, profile(VatCategory::IntraCommunity), "BR-IC-10"),
        Check::BrG01 => crate::family_checks::check_groups(inv, report, profile(VatCategory::Export), "BR-G-01"),
        Check::BrG02 => crate::family_checks::check_identifiers_in(inv, report, profile(VatCategory::Export), "BR-G-02", 0),
        Check::BrG03 => crate::family_checks::check_identifiers_in(inv, report, profile(VatCategory::Export), "BR-G-03", 1),
        Check::BrG04 => crate::family_checks::check_identifiers_in(inv, report, profile(VatCategory::Export), "BR-G-04", 2),
        Check::BrG05 => crate::family_checks::check_rate_line(inv, report, profile(VatCategory::Export), "BR-G-05"),
        Check::BrG06 => crate::family_checks::check_rate_ac(inv, report, profile(VatCategory::Export), "BR-G-06", false),
        Check::BrG07 => crate::family_checks::check_rate_ac(inv, report, profile(VatCategory::Export), "BR-G-07", true),
        Check::BrG08 => crate::family_checks::check_taxable(inv, report, profile(VatCategory::Export), "BR-G-08"),
        Check::BrG09 => crate::family_checks::check_tax(inv, report, profile(VatCategory::Export), "BR-G-09"),
        Check::BrG10 => crate::family_checks::check_exemption(inv, report, profile(VatCategory::Export), "BR-G-10"),
        Check::BrO01 => crate::family_checks::check_groups(inv, report, profile(VatCategory::OutOfScope), "BR-O-01"),
        _ => {},
    }
}

#[verifier::rlimit(100)]
fn run_part_6(c: Check, inv: &Invoice, report: &mut Report)
    requires
        c == Check::BrO02 || c == Check::BrO03 || c == Check::BrO04 || c == Check::BrO05 || c == Check::BrO06 || c == Check::BrO07 || c == Check::BrO08 || c == Check::BrO09 || c == Check::BrO10 || c == Check::BrO11 || c == Check::BrO12 || c == Check::BrO13 || c == Check::BrO14 || c == Check::BrAf01 || c == Check::BrAf02 || c == Check::BrAf03 || c == Check::BrAf04 || c == Check::BrAf05 || c == Check::BrAf06 || c == Check::BrAf07 || c == Check::BrAf08 || c == Check::BrAf09 || c == Check::BrAf10 || c == Check::BrAg01 || c == Check::BrAg02,
    ensures
        emitted(*old(report), *final(report), check_id(c)),
        check_silent(c) ==> *final(report) == *old(report),
        rule_bound(c, *inv) ==> fires_some(*old(report), *final(report), rule_fires(c, *inv)),
{
    proof {
        lemma_emitted_none(*report, check_id(c));
        reveal(rule_fires);
        reveal(rule_bound);
        reveal(check_id);
    }
    match c {
        Check::BrO02 => crate::family_checks::check_identifiers_in(inv, report, profile(VatCategory::OutOfScope), "BR-O-02", 0),
        Check::BrO03 => crate::family_checks::check_identifiers_in(inv, report, profile(VatCategory::OutOfScope), "BR-O-03", 1),
        Check::BrO04 => crate::family_checks::check_identifiers_in(inv, report, profile(VatCategory::OutOfScope), "BR-O-04", 2),
        Check::BrO05 => crate::family_checks::check_rate_line(inv, report, profile(VatCategory::OutOfScope), "BR-O-05"),
        Check::BrO06 => crate::family_checks::check_rate_ac(inv, report, profile(VatCategory::OutOfScope), "BR-O-06", false),
        Check::BrO07 => crate::family_checks::check_rate_ac(inv, report, profile(VatCategory::OutOfScope), "BR-O-07", true),
        Check::BrO08 => crate::family_checks::check_taxable(inv, report, profile(VatCategory::OutOfScope), "BR-O-08"),
        Check::BrO09 => crate::family_checks::check_tax(inv, report, profile(VatCategory::OutOfScope), "BR-O-09"),
        Check::BrO10 => crate::family_checks::check_exemption(inv, report, profile(VatCategory::OutOfScope), "BR-O-10"),
        Check::BrO11 => crate::family_checks::br_o_11(inv, report),
        Check::BrO12 => crate::family_checks::br_o_12(inv, report),
        Check::BrO13 => crate::family_checks::br_o_13(inv, report),
        Check::BrO14 => crate::family_checks::br_o_14(inv, report),
        Check::BrAf01 => crate::family_checks::check_groups(inv, report, profile(VatCategory::CanaryIslands), "BR-AF-01"),
        Check::BrAf02 => crate::family_checks::check_identifiers_in(inv, report, profile(VatCategory::CanaryIslands), "BR-AF-02", 0),
        Check::BrAf03 => crate::family_checks::check_identifiers_in(inv, report, profile(VatCategory::CanaryIslands), "BR-AF-03", 1),
        Check::BrAf04 => crate::family_checks::check_identifiers_in(inv, report, profile(VatCategory::CanaryIslands), "BR-AF-04", 2),
        Check::BrAf05 => crate::family_checks::check_rate_line(inv, report, profile(VatCategory::CanaryIslands), "BR-AF-05"),
        Check::BrAf06 => crate::family_checks::check_rate_ac(inv, report, profile(VatCategory::CanaryIslands), "BR-AF-06", false),
        Check::BrAf07 => crate::family_checks::check_rate_ac(inv, report, profile(VatCategory::CanaryIslands), "BR-AF-07", true),
        Check::BrAf08 => crate::family_checks::check_taxable(inv, report, profile(VatCategory::CanaryIslands), "BR-AF-08"),
        Check::BrAf09 => crate::family_checks::check_tax(inv, report, profile(VatCategory::CanaryIslands), "BR-AF-09"),
        Check::BrAf10 => crate::family_checks::check_exemption(inv, report, profile(VatCategory::CanaryIslands), "BR-AF-10"),
        Check::BrAg01 => crate::family_checks::check_groups(inv, report, profile(VatCategory::CeutaMelilla), "BR-AG-01"),
        Check::BrAg02 => crate::family_checks::check_identifiers_in(inv, report, profile(VatCategory::CeutaMelilla), "BR-AG-02", 0),
        _ => {},
    }
}

#[verifier::rlimit(100)]
fn run_part_7(c: Check, inv: &Invoice, report: &mut Report)
    requires
        c == Check::BrAg03 || c == Check::BrAg04 || c == Check::BrAg05 || c == Check::BrAg06 || c == Check::BrAg07 || c == Check::BrAg08 || c == Check::BrAg09 || c == Check::BrAg10 || c == Check::BrB01 || c == Check::CheckBNotWithS || c == Check::MySa01 || c == Check::MySa08 || c == Check::MySa09 || c == Check::MySa10 || c == Check::MySe01 || c == Check::MySe08 || c == Check::MySe09 || c == Check::MySe10 || c == Check::MyHvg08 || c == Check::MyHvg09 || c == Check::MyLvg08 || c == Check::MyLvg09 || c == Check::MyE09 || c == Check::MyTtx09 || c == Check::CheckMyOExclusive,
    ensures
        emitted(*old(report), *final(report), check_id(c)),
        check_silent(c) ==> *final(report) == *old(report),
        rule_bound(c, *inv) ==> fires_some(*old(report), *final(report), rule_fires(c, *inv)),
{
    proof {
        lemma_emitted_none(*report, check_id(c));
        reveal(rule_fires);
        reveal(rule_bound);
        reveal(check_id);
    }
    match c {
        Check::BrAg03 => crate::family_checks::check_identifiers_in(inv, report, profile(VatCategory::CeutaMelilla), "BR-AG-03", 1),
        Check::BrAg04 => crate::family_checks::check_identifiers_in(inv, report, profile(VatCategory::CeutaMelilla), "BR-AG-04", 2),
        Check::BrAg05 => crate::family_checks::check_rate_line(inv, report, profile(VatCategory::CeutaMelilla), "BR-AG-05"),
        Check::BrAg06 => crate::family_checks::check_rate_ac(inv, report, profile(VatCategory::CeutaMelilla), "BR-AG-06", false),
        Check::BrAg07 => crate::family_checks::check_rate_ac(inv, report, profile(VatCategory::CeutaMelilla), "BR-AG-07", true),
        Check::BrAg08 => crate::family_checks::check_taxable(inv, report, profile(VatCategory::CeutaMelilla), "BR-AG-08"),
        Check::BrAg09 => crate::family_checks::check_tax(inv, report, profile(VatCategory::CeutaMelilla), "BR-AG-09"),
        Check::BrAg10 => crate::family_checks::check_exemption(inv, report, profile(VatCategory::CeutaMelilla), "BR-AG-10"),
        Check::BrB01 => crate::family_checks::br_b_01(inv, report),
        Check::CheckBNotWithS => crate::family_checks::check_b_not_with_s(inv, report),
        Check::MySa01 => crate::my_checks::check_my_groups(inv, report, "SA", "ALIGNED-IBRP-SA-01-MY"),
        Check::MySa08 => crate::my_checks::check_my_taxable(inv, report, "SA", "ALIGNED-IBRP-SA-08-MY"),
        Check::MySa09 => crate::my_checks::check_my_tax(inv, report, "SA", "ALIGNED-IBRP-SA-09-MY", true),
        Check::MySa10 => crate::my_checks::check_my_no_exemption(inv, report, "SA", "ALIGNED-IBRP-SA-10-MY"),
        Check::MySe01 => crate::my_checks::check_my_groups(inv, report, "SE", "ALIGNED-IBRP-SE-01-MY"),
        Check::MySe08 => crate::my_checks::check_my_taxable(inv, report, "SE", "ALIGNED-IBRP-SE-08-MY"),
        Check::MySe09 => crate::my_checks::check_my_tax(inv, report, "SE", "ALIGNED-IBRP-SE-09-MY", true),
        Check::MySe10 => crate::my_checks::check_my_no_exemption(inv, report, "SE", "ALIGNED-IBRP-SE-10-MY"),
        Check::MyHvg08 => crate::my_checks::check_my_taxable(inv, report, "HVG", "ALIGNED-IBRP-HVG-08-MY"),
        Check::MyHvg09 => crate::my_checks::check_my_tax(inv, report, "HVG", "ALIGNED-IBRP-HVG-09-MY", true),
        Check::MyLvg08 => crate::my_checks::check_my_taxable(inv, report, "LVG", "ALIGNED-IBRP-LVG-08-MY"),
        Check::MyLvg09 => crate::my_checks::check_my_tax(inv, report, "LVG", "ALIGNED-IBRP-LVG-09-MY", true),
        Check::MyE09 => crate::my_checks::check_my_tax(inv, report, "E", "ALIGNED-IBRP-E-09-MY", false),
        Check::MyTtx09 => crate::my_checks::check_my_tax(inv, report, "TTX", "ALIGNED-IBRP-TTX-09-MY", false),
        Check::CheckMyOExclusive => crate::my_checks::check_my_o_exclusive(inv, report),
        _ => {},
    }
}

#[verifier::rlimit(100)]
fn run_part_8(c: Check, inv: &Invoice, report: &mut Report)
    requires
        c == Check::My002 || c == Check::My046 || c == Check::My047 || c == Check::My048 || c == Check::MyHvg10 || c == Check::MyLvg10 || c == Check::MyTtx08 || c == Check::MyE05 || c == Check::MyE08 || c == Check::MyO09 || c == Check::BrCl01 || c == Check::BrCl04 || c == Check::BrCl05 || c == Check::BrCl14 || c == Check::BrCl06 || c == Check::BrCl13 || c == Check::BrCl15 || c == Check::BrCl16 || c == Check::BrCl19 || c == Check::BrCl20 || c == Check::BrCl17 || c == Check::BrCl18 || c == Check::BrCl22 || c == Check::BrCl23 || c == Check::BrCl24,
    ensures
        emitted(*old(report), *final(report), check_id(c)),
        check_silent(c) ==> *final(report) == *old(report),
        rule_bound(c, *inv) ==> fires_some(*old(report), *final(report), rule_fires(c, *inv)),
{
    proof {
        lemma_emitted_none(*report, check_id(c));
        reveal(rule_fires);
        reveal(rule_bound);
        reveal(check_id);
    }
    match c {
        Check::My002 => crate::my_checks::my_002(inv, report),
        Check::My046 => no_finding(inv, report),
        Check::My047 => crate::my_checks::my_047(inv, report),
        Check::My048 => crate::my_checks::my_048(inv, report),
        Check::MyHvg10 => crate::my_checks::check_my_no_exemption(inv, report, "HVG", "ALIGNED-IBRP-HVG-10-MY"),
        Check::MyLvg10 => crate::my_checks::check_my_no_exemption(inv, report, "LVG", "ALIGNED-IBRP-LVG-10-MY"),
        Check::MyTtx08 => crate::my_checks::my_ttx_08(inv, report),
        Check::MyE05 => crate::my_checks::my_e_05(inv, report),
        Check::MyE08 => crate::my_checks::check_my_taxable(inv, report, "E", "ALIGNED-IBRP-E-08-MY"),
        Check::MyO09 => crate::my_checks::check_my_tax(inv, report, "O", "ALIGNED-IBRP-O-09-MY", false),
        Check::BrCl01 => crate::code_checks::br_cl_01(inv, report),
        Check::BrCl04 => crate::code_checks::br_cl_04(inv, report),
        Check::BrCl05 => crate::code_checks::br_cl_05(inv, report),
        Check::BrCl14 => crate::code_checks::br_cl_14(inv, report),
        Check::BrCl06 => crate::code_checks::br_cl_06(inv, report),
        Check::BrCl13 => crate::code_checks::br_cl_13(inv, report),
        Check::BrCl15 => crate::code_checks::br_cl_15(inv, report),
        Check::BrCl16 => crate::code_checks::br_cl_16(inv, report),
        Check::BrCl19 => crate::code_checks::br_cl_19(inv, report),
        Check::BrCl20 => crate::code_checks::br_cl_20(inv, report),
        Check::BrCl17 => crate::code_checks::br_cl_17(inv, report),
        Check::BrCl18 => crate::code_checks::br_cl_18(inv, report),
        Check::BrCl22 => crate::code_checks::br_cl_22(inv, report),
        Check::BrCl23 => crate::code_checks::br_cl_23(inv, report),
        Check::BrCl24 => crate::code_checks::br_cl_24(inv, report),
        _ => {},
    }
}

#[verifier::rlimit(100)]
fn run_part_9(c: Check, inv: &Invoice, report: &mut Report)
    requires
        c == Check::BrCl25 || c == Check::BrDecPass || c == Check::R001 || c == Check::R007 || c == Check::R004 || c == Check::R003 || c == Check::R010 || c == Check::R020 || c == Check::R005 || c == Check::R055 || c == Check::R061 || c == Check::P0100 || c == Check::P0104 || c == Check::P0105 || c == Check::P0106 || c == Check::P0107 || c == Check::P0108 || c == Check::P0109 || c == Check::P0110 || c == Check::P0111 || c == Check::R120 || c == Check::R040 || c == Check::R046 || c == Check::R121,
    ensures
        emitted(*old(report), *final(report), check_id(c)),
        check_silent(c) ==> *final(report) == *old(report),
        rule_bound(c, *inv) ==> fires_some(*old(report), *final(report), rule_fires(c, *inv)),
{
    proof {
        lemma_emitted_none(*report, check_id(c));
        reveal(rule_fires);
        reveal(rule_bound);
        reveal(check_id);
    }
    match c {
        Check::BrCl25 => crate::code_checks::br_cl_25(inv, report),
        Check::BrDecPass => no_finding(inv, report),
        Check::R001 => crate::peppol_checks::r001(inv, report),
        Check::R007 => crate::peppol_checks::r007(inv, report),
        Check::R004 => crate::peppol_checks::r004(inv, report),
        Check::R003 => crate::peppol_checks::r003(inv, report),
        Check::R010 => crate::peppol_checks::r010(inv, report),
        Check::R020 => crate::peppol_checks::r020(inv, report),
        Check::R005 => crate::peppol_checks::r005(inv, report),
        Check::R055 => crate::peppol_checks::r055(inv, report),
        Check::R061 => crate::peppol_checks::r061(inv, report),
        Check::P0100 => crate::peppol_checks::p0100(inv, report),
        Check::P0104 => crate::peppol_checks::vatex_pair(inv, report, "VATEX-EU-G", "G", "PEPPOL-EN16931-P0104"),
        Check::P0105 => crate::peppol_checks::vatex_pair(inv, report, "VATEX-EU-O", "O", "PEPPOL-EN16931-P0105"),
        Check::P0106 => crate::peppol_checks::vatex_pair(inv, report, "VATEX-EU-IC", "K", "PEPPOL-EN16931-P0106"),
        Check::P0107 => crate::peppol_checks::vatex_pair(inv, report, "VATEX-EU-AE", "AE", "PEPPOL-EN16931-P0107"),
        Check::P0108 => crate::peppol_checks::vatex_pair(inv, report, "VATEX-EU-D", "E", "PEPPOL-EN16931-P0108"),
        Check::P0109 => crate::peppol_checks::vatex_pair(inv, report, "VATEX-EU-F", "E", "PEPPOL-EN16931-P0109"),
        Check::P0110 => crate::peppol_checks::vatex_pair(inv, report, "VATEX-EU-I", "E", "PEPPOL-EN16931-P0110"),
        Check::P0111 => crate::peppol_checks::vatex_pair(inv, report, "VATEX-EU-J", "E", "PEPPOL-EN16931-P0111"),
        Check::R120 => crate::peppol_checks::r120(inv, report),
        Check::R040 => crate::peppol_checks::r040(inv, report),
        Check::R046 => crate::peppol_checks::r046(inv, report),
        Check::R121 => crate::peppol_checks::r121(inv, report),
        _ => {},
    }
}

/// Run one check: it appends findings under its own id only, and the
/// text-only checks append nothing.
pub fn run_check(c: Check, inv: &Invoice, report: &mut Report)
    ensures
        emitted(*old(report), *final(report), check_id(c)),
        check_silent(c) ==> *final(report) == *old(report),
        rule_bound(c, *inv) ==> fires_some(*old(report), *final(report), rule_fires(c, *inv)),
{
    if c == Check::SpecLookup || c == Check::CoreProcess01 || c == Check::IbrSr63 || c == Check::Br01 || c == Check::Br02 || c == Check::Br03 || c == Check::Br04 || c == Check::Br08 || c == Check::Br09 || c == Check::Br10 || c == Check::Br11 || c == Check::Br21 || c == Check::Br25 || c == Check::Br22 || c == Check::Br23 || c == Check::Br24 || c == Check::Br26 || c == Check::Br27 || c == Check::Br28 || c == Check::Br51 || c == Check::Br17 || c == Check::Br18 || c == Check::Br20 || c == Check::Br56 || c == Check::Br29 {
        run_part_0(c, inv, report);
    } else if c == Check::Br30 || c == Check::Br52 || c == Check::Br54 || c == Check::Br55 || c == Check::Br57 || c == Check::Br62 || c == Check::Br63 || c == Check::Br64 || c == Check::Br65 || c == Check::BrCo09 || c == Check::BrCo19 || c == Check::BrCo20 || c == Check::BrCo21 || c == Check::BrCo22 || c == Check::BrCo23 || c == Check::BrCo24 || c == Check::Br12 || c == Check::Br13 || c == Check::Br14 || c == Check::Br15 || c == Check::Br19 || c == Check::Br31 || c == Check::Br32 || c == Check::Br33 || c == Check::Br36 {
        run_part_1(c, inv, report);
    } else if c == Check::Br37 || c == Check::Br38 || c == Check::Br41 || c == Check::Br42 || c == Check::Br43 || c == Check::Br44 || c == Check::Br45 || c == Check::Br46 || c == Check::Br47 || c == Check::Br48 || c == Check::Br49 || c == Check::Br50 || c == Check::Br61 || c == Check::BrCo26 || c == Check::BrCo03 || c == Check::BrCoNlp || c == Check::Br05 || c == Check::Br53 || c == Check::Br06 || c == Check::Br07 || c == Check::Br16 || c == Check::BrCo04 || c == Check::BrCo10 || c == Check::BrCo11 || c == Check::BrCo12 {
        run_part_2(c, inv, report);
    } else if c == Check::BrCo13 || c == Check::BrCo14 || c == Check::BrCo15 || c == Check::BrCo16 || c == Check::BrCo17 || c == Check::PintTax || c == Check::Ibr02My || c == Check::Ibr03My || c == Check::Ibr04My || c == Check::IbrCl05My || c == Check::AlignedIbrpCl01My || c == Check::BrCo18 || c == Check::BrS01 || c == Check::BrS02 || c == Check::BrS03 || c == Check::BrS04 || c == Check::BrS05 || c == Check::BrS06 || c == Check::BrS07 || c == Check::BrS08 || c == Check::BrS09 || c == Check::BrS10 || c == Check::BrZ01 || c == Check::BrZ02 || c == Check::BrZ03 {
        run_part_3(c, inv, report);
    } else if c == Check::BrZ04 || c == Check::BrZ05 || c == Check::BrZ06 || c == Check::BrZ07 || c == Check::BrZ08 || c == Check::BrZ09 || c == Check::BrZ10 || c == Check::BrE01 || c == Check::BrE02 || c == Check::BrE03 || c == Check::BrE04 || c == Check::BrE05 || c == Check::BrE06 || c == Check::BrE07 || c == Check::BrE08 || c == Check::BrE09 || c == Check::BrE10 || c == Check::BrAe01 || c == Check::BrAe02 || c == Check::BrAe03 || c == Check::BrAe04 || c == Check::BrAe05 || c == Check::BrAe06 || c == Check::BrAe07 || c == Check::BrAe08 {
        run_part_4(c, inv, report);
    } else if c == Check::BrAe09 || c == Check::BrAe10 || c == Check::BrIc01 || c == Check::BrIc02 || c == Check::BrIc03 || c == Check::BrIc04 || c == Check::BrIc05 || c == Check::BrIc06 || c == Check::BrIc07 || c == Check::BrIc11 || c == Check::BrIc12 || c == Check::BrIc08 || c == Check::BrIc09 || c == Check::BrIc10 || c == Check::BrG01 || c == Check::BrG02 || c == Check::BrG03 || c == Check::BrG04 || c == Check::BrG05 || c == Check::BrG06 || c == Check::BrG07 || c == Check::BrG08 || c == Check::BrG09 || c == Check::BrG10 || c == Check::BrO01 {
        run_part_5(c, inv, report);
    } else if c == Check::BrO02 || c == Check::BrO03 || c == Check::BrO04 || c == Check::BrO05 || c == Check::BrO06 || c == Check::BrO07 || c == Check::BrO08 || c == Check::BrO09 || c == Check::BrO10 || c == Check::BrO11 || c == Check::BrO12 || c == Check::BrO13 || c == Check::BrO14 || c == Check::BrAf01 || c == Check::BrAf02 || c == Check::BrAf03 || c == Check::BrAf04 || c == Check::BrAf05 || c == Check::BrAf06 || c == Check::BrAf07 || c == Check::BrAf08 || c == Check::BrAf09 || c == Check::BrAf10 || c == Check::BrAg01 || c == Check::BrAg02 {
        run_part_6(c, inv, report);
    } else if c == Check::BrAg03 || c == Check::BrAg04 || c == Check::BrAg05 || c == Check::BrAg06 || c == Check::BrAg07 || c == Check::BrAg08 || c == Check::BrAg09 || c == Check::BrAg10 || c == Check::BrB01 || c == Check::CheckBNotWithS || c == Check::MySa01 || c == Check::MySa08 || c == Check::MySa09 || c == Check::MySa10 || c == Check::MySe01 || c == Check::MySe08 || c == Check::MySe09 || c == Check::MySe10 || c == Check::MyHvg08 || c == Check::MyHvg09 || c == Check::MyLvg08 || c == Check::MyLvg09 || c == Check::MyE09 || c == Check::MyTtx09 || c == Check::CheckMyOExclusive {
        run_part_7(c, inv, report);
    } else if c == Check::My002 || c == Check::My046 || c == Check::My047 || c == Check::My048 || c == Check::MyHvg10 || c == Check::MyLvg10 || c == Check::MyTtx08 || c == Check::MyE05 || c == Check::MyE08 || c == Check::MyO09 || c == Check::BrCl01 || c == Check::BrCl04 || c == Check::BrCl05 || c == Check::BrCl14 || c == Check::BrCl06 || c == Check::BrCl13 || c == Check::BrCl15 || c == Check::BrCl16 || c == Check::BrCl19 || c == Check::BrCl20 || c == Check::BrCl17 || c == Check::BrCl18 || c == Check::BrCl22 || c == Check::BrCl23 || c == Check::BrCl24 {
        run_part_8(c, inv, report);
    } else if c == Check::BrCl25 || c == Check::BrDecPass || c == Check::R001 || c == Check::R007 || c == Check::R004 || c == Check::R003 || c == Check::R010 || c == Check::R020 || c == Check::R005 || c == Check::R055 || c == Check::R061 || c == Check::P0100 || c == Check::P0104 || c == Check::P0105 || c == Check::P0106 || c == Check::P0107 || c == Check::P0108 || c == Check::P0109 || c == Check::P0110 || c == Check::P0111 || c == Check::R120 || c == Check::R040 || c == Check::R046 || c == Check::R121 {
        run_part_9(c, inv, report);
    } else {
        proof {
            lemma_emitted_none(*report, check_id(c));
        }
    }
}

/// Every finding carries the id of one of the checks of `rules`.
pub open spec fn ids_from(f: Seq<crate::report::Finding>, rules: Seq<Rule>) -> bool {
    forall|i: int| 0 <= i < f.len() ==> exists|j: int| 0 <= j < rules.len() && (#[trigger] f[i]).id@ == check_id(
        #[trigger] rules[j].check,
    )
}

/// The rules checked on an invoice of a profile: the core rules, then the
/// profile's own.
pub open spec fn checked_rules(p: crate::profile::Profile) -> Seq<Rule> {
    core_rules_spec() + extra_rules_spec(p)
}

/// Run every core rule and the profile's own rules over the invoice; the
/// findings come back in report order (severity, path, id).
/// `rep` is a validation report of the invoice: the profile's slug, the
/// number of rules checked, and findings in report order, each under the id
/// of a checked rule.
pub open spec fn validation_of(inv: Invoice, rep: Report) -> bool {
    &&& rep.profile_slug@ == profile_slug(inv.profile)
    &&& rep.rules_checked == checked_rules(inv.profile).len()
    &&& sorted(rep.findings@)
    &&& ids_from(rep.findings@, checked_rules(inv.profile))
    &&& fired_found(inv, rep.findings@, checked_rules(inv.profile), checked_rules(inv.profile).len() as int)
    &&& found_fired(inv, rep.findings@, checked_rules(inv.profile), checked_rules(inv.profile).len() as int)
}

/// Every one of the first `n` rules that fires on the invoice, where its
/// contract states when it fires, has a finding under its id.
pub open spec fn fired_found(inv: Invoice, f: Seq<Finding>, rules: Seq<Rule>, n: int) -> bool {
    forall|j: int| 0 <= j < n && #[trigger] rule_bound(rules[j].check, inv) && rule_fires(rules[j].check, inv)
        ==> exists|k: int| 0 <= k < f.len() && (#[trigger] f[k]).id@ == check_id(rules[j].check)
}

/// Every finding is under the id of one of the first `n` rules that fires on
/// the invoice, or of one whose contract does not state when it fires.
pub open spec fn found_fired(inv: Invoice, f: Seq<Finding>, rules: Seq<Rule>, n: int) -> bool {
    forall|k: int| 0 <= k < f.len() ==> #[trigger] from_some_rule(inv, f[k], rules, n)
}

/// The finding comes from one of the first `n` rules.
pub open spec fn from_some_rule(inv: Invoice, f: Finding, rules: Seq<Rule>, n: int) -> bool {
    exists|j: int| 0 <= j < n && #[trigger] rule_from(inv, f, rules[j])
}

/// The finding is under the rule's id, and the rule fires where its
/// contract states when it fires.
pub open spec fn rule_from(inv: Invoice, f: Finding, r: Rule) -> bool {
    f.id@ == check_id(r.check) && (rule_bound(r.check, inv) ==> rule_fires(r.check, inv))
}

/// A run of rule `all[i]` keeps what the earlier rules' findings say and
/// adds what its own say.
proof fn lemma_fires_step(inv: Invoice, before: Seq<Finding>, after: Seq<Finding>, all: Seq<Rule>, i: int)
    requires
        0 <= i < all.len(),
        fired_found(inv, before, all, i),
        found_fired(inv, before, all, i),
        before.len() <= after.len(),
        after.subrange(0, before.len() as int) == before,
        forall|k: int| before.len() <= k < after.len() ==> (#[trigger] after[k]).id@ == check_id(all[i].check),
        rule_bound(all[i].check, inv) ==> (after.len() > before.len() <==> rule_fires(all[i].check, inv)),
    ensures
        fired_found(inv, after, all, i + 1),
        found_fired(inv, after, all, i + 1),
{
    assert forall|k: int| 0 <= k < before.len() implies after[k] == before[k] by {
        assert(after[k] == after.subrange(0, before.len() as int)[k]);
    }
    assert forall|j: int| 0 <= j < i + 1 && #[trigger] rule_bound(all[j].check, inv) && rule_fires(all[j].check, inv)
        implies exists|k: int| 0 <= k < after.len() && (#[trigger] after[k]).id@ == check_id(all[j].check) by {
        if j < i {
            let k0 = choose|k: int| 0 <= k < before.len() && (#[trigger] before[k]).id@ == check_id(all[j].check);
            assert(after[k0] == before[k0]);
        } else {
            let k1 = before.len() as int;
            assert(after[k1].id@ == check_id(all[i].check));
        }
    }
    assert forall|k: int| 0 <= k < after.len() implies #[trigger] from_some_rule(inv, after[k], all, i + 1) by {
        if k < before.len() {
            assert(from_some_rule(inv, before[k], all, i));
            let j0 = choose|j: int| 0 <= j < i && #[trigger] rule_from(inv, before[k], all[j]);
            assert(after[k] == before[k]);
            assert(rule_from(inv, after[k], all[j0]));
        } else {
            assert(rule_from(inv, after[k], all[i]));
        }
    }
}

/// Reordering the findings keeps what they say of the rules.
proof fn lemma_fires_permuted(inv: Invoice, a: Seq<Finding>, b: Seq<Finding>, all: Seq<Rule>)
    requires
        a.to_multiset() == b.to_multiset(),
        fired_found(inv, a, all, all.len() as int),
        found_fired(inv, a, all, all.len() as int),
    ensures
        fired_found(inv, b, all, all.len() as int),
        found_fired(inv, b, all, all.len() as int),
{
    broadcast use vstd::seq_lib::group_to_multiset_ensures;
    assert forall|k: int| 0 <= k < b.len() implies #[trigger] from_some_rule(inv, b[k], all, all.len() as int) by {
        let f = b[k];
        assert(b.contains(f));
        assert(a.to_multiset().count(f) > 0);
        assert(a.contains(f));
        let m = choose|m: int| 0 <= m < a.len() && a[m] == f;
        assert(from_some_rule(inv, a[m], all, all.len() as int));
    }
    assert forall|j: int| 0 <= j < all.len() && #[trigger] rule_bound(all[j].check, inv) && rule_fires(all[j].check, inv)
        implies exists|k: int| 0 <= k < b.len() && (#[trigger] b[k]).id@ == check_id(all[j].check) by {
        let m = choose|m: int| 0 <= m < a.len() && (#[trigger] a[m]).id@ == check_id(all[j].check);
        let f = a[m];
        assert(a.contains(f));
        assert(b.to_multiset().count(f) > 0);
        assert(b.contains(f));
        let k = choose|k: int| 0 <= k < b.len() && b[k] == f;
        assert(b[k].id@ == check_id(all[j].check));
    }
}

#[verifier::rlimit(60)]
pub fn validate(invoice: &Invoice) -> (r: Report)
    ensures
        validation_of(*invoice, r),
        r.profile_slug@ == profile_slug(invoice.profile),
        r.rules_checked == checked_rules(invoice.profile).len(),
        sorted(r.findings@),
        ids_from(r.findings@, checked_rules(invoice.profile)),
{
    let core = core_rules();
    let extra = extra_rules(invoice.profile);
    proof {
        crate::rule_table::lemma_rule_counts();
    }
    let mut rules = core;
    let mut more = extra;
    rules.append(&mut more);
    let ghost all = checked_rules(invoice.profile);
    assert(rules@ =~= all);
    let mut report = Report::default();
    report.profile_slug = invoice.profile.slug();
    report.rules_checked = rules.len();
    let mut i: usize = 0;
    while i < rules.len()
        invariant
            i <= rules.len(),
            rules@ == all,
            report.profile_slug@ == profile_slug(invoice.profile),
            report.rules_checked == all.len(),
            ids_from(report.findings@, all),
            fired_found(*invoice, report.findings@, all, i as int),
            found_fired(*invoice, report.findings@, all, i as int),
        decreases rules.len() - i,
    {
        let ghost before = report;
        run_check(rules[i].check, invoice, &mut report);
        proof {
            assert forall|k: int| 0 <= k < report.findings@.len() implies exists|j: int| 0 <= j < all.len()
                && (#[trigger] report.findings@[k]).id@ == check_id(#[trigger] all[j].check) by {
                if k < before.findings@.len() {
                    assert(report.findings@[k] == report.findings@.subrange(0, before.findings@.len() as int)[k]);
                    assert(report.findings@[k] == before.findings@[k]);
                } else {
                    assert(report.findings@[k].id@ == check_id(all[i as int].check));
                }
            }
            lemma_fires_step(*invoice, before.findings@, report.findings@, all, i as int);
        }
        i = i + 1;
    }
    let ghost unsorted = report.findings@;
    report.sort_stable();
    proof {
        broadcast use vstd::seq_lib::group_to_multiset_ensures;
        assert forall|k: int| 0 <= k < report.findings@.len() implies exists|j: int| 0 <= j < all.len()
            && (#[trigger] report.findings@[k]).id@ == check_id(#[trigger] all[j].check) by {
            let f = report.findings@[k];
            assert(report.findings@.contains(f));
            assert(report.findings@.to_multiset().count(f) > 0);
            assert(unsorted.to_multiset().count(f) > 0);
            assert(unsorted.contains(f));
            let m = choose|m: int| 0 <= m < unsorted.len() && unsorted[m] == f;
            assert(unsorted[m].id@ == f.id@);
        }
        lemma_fires_permuted(*invoice, unsorted, report.findings@, all);
    }
    report
}

} // verus!
