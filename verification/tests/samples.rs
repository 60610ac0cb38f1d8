use core_invoice::amount::InvoiceAmount;
use core_invoice::code::Code;
use core_invoice::fixtures::{peppol_vat, pint_gst_sr, pint_my_sst};
use core_invoice::formats::{read, write_unchecked, write_validated, FormatError, Syntax};
use core_invoice::identifier::Identifier;
use core_invoice::invoice::{Line, PaymentInstructions};
use core_invoice::profile::Profile;
use core_invoice::profile_proof::{PeppolBis3, Validated};
use core_invoice::reconcile::reconcile;
use core_invoice::tax::{TaxCategory, TaxSystem};
use core_invoice::validate::validate;


#[test]
fn pint_my_round_trip_ubl_keeps_profile() {
        let xml = write_unchecked(&pint_my_sst(), Syntax::Ubl).unwrap();
        let back = read(&xml).unwrap();
        assert_eq!(back.profile, Profile::PintMy);
        assert_eq!(
            back.seller
                .tax_registration
                .as_ref()
                .map(|i| i.value.as_str()),
            Some("C12345678901")
        );
        assert_eq!(back.lines[0].tax.code, "SA");
    }

#[test]
fn cii_write_is_three_part_d16b_for_en_peppol() {
        let xml = write_unchecked(&peppol_vat(), Syntax::Cii).unwrap();
        assert!(xml.contains("CrossIndustryInvoice"));
        let line = xml.find("IncludedSupplyChainTradeLineItem").unwrap();
        let header = xml.find("ApplicableHeaderTradeAgreement").unwrap();
        assert!(line < header);
        assert!(!xml.contains(">SST<"));
    }

#[test]
fn pint_my_cii_is_refused() {
        let err = write_unchecked(&pint_my_sst(), Syntax::Cii).unwrap_err();
        assert!(
            matches!(err, FormatError::CiiNotForProfile),
            "{}", err.to_string()
        );
    }

#[test]
fn peppol_vat_is_valid() {
        assert!(validate(&peppol_vat()).ok());
    }

#[test]
fn z03_is_allowed_on_pint_my_not_peppol() {
        let mut my = pint_my_sst();
        my.payment = Some(PaymentInstructions {
            means_code: Some(Code::new("Z03")),
            means_text: None,
            remittance: None,
            means: None,
        });
        let report = validate(&my);
        assert!(
            report.findings.iter().all(|f| f.id != "BR-CL-16"),
            "{}", report.to_string()
        );
        let mut pep = peppol_vat();
        pep.payment = Some(PaymentInstructions {
            means_code: Some(Code::new("Z03")),
            means_text: None,
            remittance: None,
            means: None,
        });
        let report = validate(&pep);
        assert!(
            report.findings.iter().any(|f| f.id == "BR-CL-16"),
            "{}", report.to_string()
        );
    }

#[test]
fn sa_plus_ttx_omits_percent_and_uses_aal() {
        let mut inv = pint_my_sst();
        inv.lines.push(Line::new(
            "2",
            "Tourism",
            InvoiceAmount::parse("50.00").unwrap(),
            TaxCategory::ttx(),
        ));
        let _ = reconcile(&mut inv);
        let xml = write_unchecked(&inv, Syntax::Ubl).unwrap();
        assert!(
            xml.contains("schemeID=\"AAL\"") || xml.contains(">AAL<"),
            "{xml}"
        );
        assert!(!xml.contains(">SST<"));
        let ttx_block = xml
            .split("TaxSubtotal")
            .find(|s| s.contains(">TTX<"))
            .unwrap_or("");
        assert!(
            !ttx_block.contains("<cbc:Percent"),
            "TTX subtotal must not emit Percent: {ttx_block}"
        );
        let back = read(&xml).unwrap();
        let ttx = back
            .tax_breakdown
            .iter()
            .find(|r| r.category.as_str() == "TTX")
            .expect("TTX row");
        assert!(ttx.rate.is_none());
        assert_eq!(ttx.scheme, "AAL");
    }

#[test]
fn write_validated_stamps_peppol_bt24_over_leftover_pint() {
        let mut inv = peppol_vat();
        inv.specification_id = Some("urn:peppol:pint:billing-1".into());
        let proof = Validated::<PeppolBis3>::new(inv).unwrap();
        let xml = write_validated(&proof, Syntax::Ubl).unwrap();
        assert!(xml.contains("urn:cen.eu:en16931:2017#compliant#urn:fdc:peppol.eu:2017:poacc:billing:3.0"));
        assert!(!xml.contains(">urn:peppol:pint:billing-1<"));
        assert!(xml.contains("urn:fdc:peppol.eu:2017:poacc:billing:01:1.0"));
    }

#[test]
fn sst_on_peppol_is_invalid() {
        let mut inv = pint_my_sst();
        inv.profile = Profile::PeppolBis3;
        assert!(!validate(&inv).ok());
    }

#[test]
fn pint_gst_sr_is_core_ok_on_pint_not_a_1_1_2_oracle() {
        // CORE + PINT-TAX. Not PINT Schematron Valid (no ibr-076/080/081 on this fixture).
        let inv = pint_gst_sr();
        assert_eq!(inv.lines[0].tax.system, TaxSystem::Gst);
        assert!(validate(&inv).ok(), "{}", validate(&inv).to_string());
        let xml = write_unchecked(&inv, Syntax::Ubl).unwrap();
        assert!(xml.contains(">GST<"), "{xml}");
        assert!(!xml.contains(">SST<"), "{xml}");
        let mut my = inv;
        my.profile = Profile::PintMy;
        my.seller.legal_registration = Some(Identifier::new("2023010000001"));
        my.seller.tax_registration = Some(Identifier::new("C12345678901"));
        my.buyer.legal_registration = Some(Identifier::new("1999010000001"));
        let report = validate(&my);
        assert!(
            report
                .findings
                .iter()
                .any(|f| f.id == "ALIGNED-IBRP-CL-01-MY"),
            "{}", report.to_string()
        );
    }
