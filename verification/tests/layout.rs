use apec_lms::guard::fits;
use apec_lms::layout::{
    fits_reserved, reserved_space, ACHIEVEMENT_SPACE, CERTIFICATE_SPACE, COURSE_SPACE, ENROLLMENT_SPACE,
    LMS_ACCOUNT_SPACE,
};
use apec_lms::types::{
    Achievement, AchievementType, Address, Certificate, Course, CredentialType, Enrollment, ErrorClass,
    ErrorCode, LmsAccount, Record,
};

fn key(n: u8) -> Address {
    Address::new([n; 32])
}

fn lms(name: usize, description: usize) -> Record {
    Record::Lms(LmsAccount {
        authority: key(1),
        name: "n".repeat(name),
        description: "d".repeat(description),
        total_courses: 0,
        total_students: 0,
        total_instructors: 0,
        bump: 255,
    })
}

fn course(id: usize, title: usize, description: usize) -> Record {
    Record::Course(Course {
        course_id: "i".repeat(id),
        title: "t".repeat(title),
        description: "d".repeat(description),
        instructor: key(2),
        price: 1,
        max_students: 2,
        current_students: 0,
        is_active: true,
        created_at: 0,
        bump: 255,
    })
}

fn enrollment(id: usize) -> Record {
    Record::Enrollment(Enrollment {
        enrollment_id: "e".repeat(id),
        student: key(3),
        course: key(4),
        enrolled_at: 0,
        is_active: true,
        progress: 0,
        bump: 255,
    })
}

fn certificate(id: usize, uri: usize) -> Record {
    Record::Certificate(Certificate {
        certificate_id: "c".repeat(id),
        student: key(3),
        course: key(4),
        instructor: key(2),
        credential_type: CredentialType::MicroCredential,
        metadata_uri: "u".repeat(uri),
        issued_at: 0,
        is_verified: true,
        bump: 255,
    })
}

fn achievement() -> Record {
    Record::Achievement(Achievement {
        student: key(3),
        achievement_type: AchievementType::Participation,
        amount: 1,
        awarded_at: 0,
        bump: 255,
    })
}

#[test]
fn reserved_sizes() {
    assert_eq!(LMS_ACCOUNT_SPACE, 585);
    assert_eq!(COURSE_SPACE, 654);
    assert_eq!(ENROLLMENT_SPACE, 151);
    assert_eq!(CERTIFICATE_SPACE, 443);
    assert_eq!(ACHIEVEMENT_SPACE, 58);
    assert_eq!(reserved_space(&lms(0, 0)), 585);
    assert_eq!(reserved_space(&course(0, 0, 0)), 654);
    assert_eq!(reserved_space(&enrollment(0)), 151);
    assert_eq!(reserved_space(&certificate(0, 0)), 443);
    assert_eq!(reserved_space(&achievement()), 58);
}

#[test]
fn longest_legal_records_fill_their_space() {
    assert!(fits_reserved(&lms(256, 256)));
    assert!(!fits_reserved(&lms(257, 256)));
    assert!(fits_reserved(&lms(512, 0)));
    assert!(!fits_reserved(&lms(0, 513)));
    assert!(fits_reserved(&course(64, 256, 256)));
    assert!(!fits_reserved(&course(65, 256, 256)));
    assert!(!fits_reserved(&course(64, 256, 257)));
    assert!(fits_reserved(&enrollment(64)));
    assert!(!fits_reserved(&enrollment(65)));
    assert!(fits_reserved(&certificate(64, 256)));
    assert!(!fits_reserved(&certificate(64, 257)));
    assert!(fits_reserved(&achievement()));
    assert!(fits_reserved(&lms(0, 0)));
}

#[test]
fn text_width_counts_bytes() {
    assert!(fits(&"abc".to_string(), 3));
    assert!(!fits(&"abcd".to_string(), 3));
    assert!(fits(&String::new(), 0));
    // Two bytes each in UTF-8.
    assert!(fits(&"éé".to_string(), 4));
    assert!(!fits(&"éé".to_string(), 3));
}

#[test]
fn error_messages() {
    assert_eq!(ErrorCode::InvalidProgress.message(), "Invalid progress percentage");
    assert_eq!(ErrorCode::CourseFull.message(), "Course is full");
    assert_eq!(ErrorCode::CourseInactive.message(), "Course is not active");
    assert_eq!(ErrorCode::Unauthorized.message(), "Unauthorized access");
    assert_eq!(ErrorCode::AlreadyExists.message(), "Record already exists");
    assert_eq!(ErrorCode::NotFound.message(), "Record not found");
    assert_ne!(ErrorCode::MissingSignature.message(), ErrorCode::AddressMismatch.message());
    assert_ne!(ErrorCode::FieldTooLong.message(), ErrorCode::CounterOverflow.message());
    assert_eq!(ErrorCode::TransferFailed.message(), "Token transfer failed");
}

#[test]
fn error_classes() {
    assert_eq!(ErrorCode::InvalidProgress.class(), ErrorClass::Validation);
    assert_eq!(ErrorCode::CourseFull.class(), ErrorClass::Validation);
    assert_eq!(ErrorCode::CourseInactive.class(), ErrorClass::Validation);
    assert_eq!(ErrorCode::FieldTooLong.class(), ErrorClass::Validation);
    assert_eq!(ErrorCode::CounterOverflow.class(), ErrorClass::Validation);
    assert_eq!(ErrorCode::Unauthorized.class(), ErrorClass::Authorization);
    assert_eq!(ErrorCode::MissingSignature.class(), ErrorClass::Authorization);
    assert_eq!(ErrorCode::AddressMismatch.class(), ErrorClass::Derivation);
    assert_eq!(ErrorCode::AlreadyExists.class(), ErrorClass::Derivation);
    assert_eq!(ErrorCode::NotFound.class(), ErrorClass::Derivation);
    assert_eq!(ErrorCode::TransferFailed.class(), ErrorClass::External);
}
