use lib::error::{error_to_u32, ErrorKind};

const ALL_KINDS: [ErrorKind; 52] = [
    ErrorKind::Tag,
    ErrorKind::MapRes,
    ErrorKind::MapOpt,
    ErrorKind::Alt,
    ErrorKind::IsNot,
    ErrorKind::IsA,
    ErrorKind::SeparatedList,
    ErrorKind::SeparatedNonEmptyList,
    ErrorKind::Many0,
    ErrorKind::Many1,
    ErrorKind::ManyTill,
    ErrorKind::Count,
    ErrorKind::TakeUntil,
    ErrorKind::LengthValue,
    ErrorKind::TagClosure,
    ErrorKind::Alpha,
    ErrorKind::Digit,
    ErrorKind::HexDigit,
    ErrorKind::OctDigit,
    ErrorKind::AlphaNumeric,
    ErrorKind::Space,
    ErrorKind::MultiSpace,
    ErrorKind::LengthValueFn,
    ErrorKind::Eof,
    ErrorKind::Switch,
    ErrorKind::TagBits,
    ErrorKind::OneOf,
    ErrorKind::NoneOf,
    ErrorKind::Char,
    ErrorKind::CrLf,
    ErrorKind::RegexpMatch,
    ErrorKind::RegexpMatches,
    ErrorKind::RegexpFind,
    ErrorKind::RegexpCapture,
    ErrorKind::RegexpCaptures,
    ErrorKind::TakeWhile1,
    ErrorKind::Complete,
    ErrorKind::Fix,
    ErrorKind::Escaped,
    ErrorKind::EscapedTransform,
    ErrorKind::NonEmpty,
    ErrorKind::ManyMN,
    ErrorKind::Not,
    ErrorKind::Permutation,
    ErrorKind::Verify,
    ErrorKind::TakeTill1,
    ErrorKind::TakeWhileMN,
    ErrorKind::ParseTo,
    ErrorKind::TooLarge,
    ErrorKind::Many0Count,
    ErrorKind::Many1Count,
    ErrorKind::Float,
];

#[test]
fn error_codes_match_the_table() {
    assert_eq!(error_to_u32(&ErrorKind::Tag), 1);
    assert_eq!(error_to_u32(&ErrorKind::MapRes), 2);
    assert_eq!(error_to_u32(&ErrorKind::MapOpt), 3);
    assert_eq!(error_to_u32(&ErrorKind::Alt), 4);
    assert_eq!(error_to_u32(&ErrorKind::IsNot), 5);
    assert_eq!(error_to_u32(&ErrorKind::IsA), 6);
    assert_eq!(error_to_u32(&ErrorKind::SeparatedList), 7);
    assert_eq!(error_to_u32(&ErrorKind::SeparatedNonEmptyList), 8);
    assert_eq!(error_to_u32(&ErrorKind::Many1), 9);
    assert_eq!(error_to_u32(&ErrorKind::Count), 10);
    assert_eq!(error_to_u32(&ErrorKind::TakeUntil), 12);
    assert_eq!(error_to_u32(&ErrorKind::LengthValue), 15);
    assert_eq!(error_to_u32(&ErrorKind::TagClosure), 16);
    assert_eq!(error_to_u32(&ErrorKind::Alpha), 17);
    assert_eq!(error_to_u32(&ErrorKind::Digit), 18);
    assert_eq!(error_to_u32(&ErrorKind::AlphaNumeric), 19);
    assert_eq!(error_to_u32(&ErrorKind::Space), 20);
    assert_eq!(error_to_u32(&ErrorKind::MultiSpace), 21);
    assert_eq!(error_to_u32(&ErrorKind::LengthValueFn), 22);
    assert_eq!(error_to_u32(&ErrorKind::Eof), 23);
    assert_eq!(error_to_u32(&ErrorKind::Switch), 27);
    assert_eq!(error_to_u32(&ErrorKind::TagBits), 28);
    assert_eq!(error_to_u32(&ErrorKind::OneOf), 29);
    assert_eq!(error_to_u32(&ErrorKind::NoneOf), 30);
    assert_eq!(error_to_u32(&ErrorKind::Char), 40);
    assert_eq!(error_to_u32(&ErrorKind::CrLf), 41);
    assert_eq!(error_to_u32(&ErrorKind::RegexpMatch), 42);
    assert_eq!(error_to_u32(&ErrorKind::RegexpMatches), 43);
    assert_eq!(error_to_u32(&ErrorKind::RegexpFind), 44);
    assert_eq!(error_to_u32(&ErrorKind::RegexpCapture), 45);
    assert_eq!(error_to_u32(&ErrorKind::RegexpCaptures), 46);
    assert_eq!(error_to_u32(&ErrorKind::TakeWhile1), 47);
    assert_eq!(error_to_u32(&ErrorKind::Complete), 48);
    assert_eq!(error_to_u32(&ErrorKind::Fix), 49);
    assert_eq!(error_to_u32(&ErrorKind::Escaped), 50);
    assert_eq!(error_to_u32(&ErrorKind::EscapedTransform), 51);
    assert_eq!(error_to_u32(&ErrorKind::NonEmpty), 56);
    assert_eq!(error_to_u32(&ErrorKind::ManyMN), 57);
    assert_eq!(error_to_u32(&ErrorKind::HexDigit), 59);
    assert_eq!(error_to_u32(&ErrorKind::OctDigit), 61);
    assert_eq!(error_to_u32(&ErrorKind::Many0), 62);
    assert_eq!(error_to_u32(&ErrorKind::Not), 63);
    assert_eq!(error_to_u32(&ErrorKind::Permutation), 64);
    assert_eq!(error_to_u32(&ErrorKind::ManyTill), 65);
    assert_eq!(error_to_u32(&ErrorKind::Verify), 66);
    assert_eq!(error_to_u32(&ErrorKind::TakeTill1), 67);
    assert_eq!(error_to_u32(&ErrorKind::TakeWhileMN), 69);
    assert_eq!(error_to_u32(&ErrorKind::ParseTo), 70);
    assert_eq!(error_to_u32(&ErrorKind::TooLarge), 71);
    assert_eq!(error_to_u32(&ErrorKind::Many0Count), 72);
    assert_eq!(error_to_u32(&ErrorKind::Many1Count), 73);
    assert_eq!(error_to_u32(&ErrorKind::Float), 74);
}

#[test]
fn error_codes_are_distinct_and_in_range() {
    for (i, a) in ALL_KINDS.iter().enumerate() {
        let ca = error_to_u32(a);
        assert!(ca >= 1 && ca <= 74);
        for b in ALL_KINDS.iter().skip(i + 1) {
            assert_ne!(ca, error_to_u32(b));
        }
    }
}

#[test]
fn descriptions_match_the_table() {
    assert_eq!(ErrorKind::Tag.description(), "Tag");
    assert_eq!(ErrorKind::MapRes.description(), "Map on Result");
    assert_eq!(ErrorKind::MapOpt.description(), "Map on Option");
    assert_eq!(ErrorKind::Alt.description(), "Alternative");
    assert_eq!(ErrorKind::IsNot.description(), "IsNot");
    assert_eq!(ErrorKind::IsA.description(), "IsA");
    assert_eq!(ErrorKind::SeparatedList.description(), "Separated list");
    assert_eq!(ErrorKind::SeparatedNonEmptyList.description(), "Separated non empty list");
    assert_eq!(ErrorKind::Many0.description(), "Many0");
    assert_eq!(ErrorKind::Many1.description(), "Many1");
    assert_eq!(ErrorKind::Count.description(), "Count");
    assert_eq!(ErrorKind::TakeUntil.description(), "Take until");
    assert_eq!(ErrorKind::LengthValue.description(), "Length followed by value");
    assert_eq!(ErrorKind::TagClosure.description(), "Tag closure");
    assert_eq!(ErrorKind::Alpha.description(), "Alphabetic");
    assert_eq!(ErrorKind::Digit.description(), "Digit");
    assert_eq!(ErrorKind::AlphaNumeric.description(), "AlphaNumeric");
    assert_eq!(ErrorKind::Space.description(), "Space");
    assert_eq!(ErrorKind::MultiSpace.description(), "Multiple spaces");
    assert_eq!(ErrorKind::LengthValueFn.description(), "LengthValueFn");
    assert_eq!(ErrorKind::Eof.description(), "End of file");
    assert_eq!(ErrorKind::Switch.description(), "Switch");
    assert_eq!(ErrorKind::TagBits.description(), "Tag on bitstream");
    assert_eq!(ErrorKind::OneOf.description(), "OneOf");
    assert_eq!(ErrorKind::NoneOf.description(), "NoneOf");
    assert_eq!(ErrorKind::Char.description(), "Char");
    assert_eq!(ErrorKind::CrLf.description(), "CrLf");
    assert_eq!(ErrorKind::RegexpMatch.description(), "RegexpMatch");
    assert_eq!(ErrorKind::RegexpMatches.description(), "RegexpMatches");
    assert_eq!(ErrorKind::RegexpFind.description(), "RegexpFind");
    assert_eq!(ErrorKind::RegexpCapture.description(), "RegexpCapture");
    assert_eq!(ErrorKind::RegexpCaptures.description(), "RegexpCaptures");
    assert_eq!(ErrorKind::TakeWhile1.description(), "TakeWhile1");
    assert_eq!(ErrorKind::Complete.description(), "Complete");
    assert_eq!(ErrorKind::Fix.description(), "Fix");
    assert_eq!(ErrorKind::Escaped.description(), "Escaped");
    assert_eq!(ErrorKind::EscapedTransform.description(), "EscapedTransform");
    assert_eq!(ErrorKind::NonEmpty.description(), "NonEmpty");
    assert_eq!(ErrorKind::ManyMN.description(), "Many(m, n)");
    assert_eq!(ErrorKind::HexDigit.description(), "Hexadecimal Digit");
    assert_eq!(ErrorKind::OctDigit.description(), "Octal digit");
    assert_eq!(ErrorKind::Not.description(), "Negation");
    assert_eq!(ErrorKind::Permutation.description(), "Permutation");
    assert_eq!(ErrorKind::ManyTill.description(), "ManyTill");
    assert_eq!(ErrorKind::Verify.description(), "predicate verification");
    assert_eq!(ErrorKind::TakeTill1.description(), "TakeTill1");
    assert_eq!(ErrorKind::TakeWhileMN.description(), "TakeWhileMN");
    assert_eq!(ErrorKind::ParseTo.description(), "Parse string to the specified type");
    assert_eq!(ErrorKind::TooLarge.description(), "Needed data size is too large");
    assert_eq!(ErrorKind::Many0Count.description(), "Count occurrence of >=0 patterns");
    assert_eq!(ErrorKind::Many1Count.description(), "Count occurrence of >=1 patterns");
    assert_eq!(ErrorKind::Float.description(), "Float");
}
