use anchor_lang::prelude::Pubkey;
use apec_lms::derivation::{
    derive_achievement, derive_certificate, derive_course, derive_enrollment, derive_lms, program_id,
};
use apec_lms::ledger::Ledger;
use apec_lms::operations::{
    apply_create_course, apply_initialize_lms, award_tokens, create_course, enroll_student,
    initialize_lms, issue_certificate, settle_award, update_progress, AwardTokens, CreateCourse,
    EnrollStudent, InitializeLms, IssueCertificate, UpdateProgress,
};
use apec_lms::types::{
    AchievementType, Address, CredentialType, ErrorCode, LmsAccount, Record, Signer, TokensAwarded,
};

fn key(n: u8) -> Address {
    Address::new([n; 32])
}

fn signed(n: u8) -> Signer {
    Signer { key: key(n), signed: true }
}

fn lms_address() -> Address {
    derive_lms(&program_id()).unwrap().0
}

fn course_address(id: &str) -> Address {
    derive_course(&id.to_string(), &program_id()).unwrap().0
}

fn enrollment_address(id: &str) -> Address {
    derive_enrollment(&id.to_string(), &program_id()).unwrap().0
}

fn certificate_address(id: &str) -> Address {
    derive_certificate(&id.to_string(), &program_id()).unwrap().0
}

/// A ledger with the root record, owned by actor 1.
fn set_up() -> Ledger {
    let mut ledger = Ledger::new(program_id());
    let ctx = InitializeLms { lms_account: lms_address(), authority: signed(1) };
    initialize_lms(&mut ledger, &ctx, "Acme LMS".to_string(), "desc".to_string()).unwrap();
    ledger
}

/// Adds a course by instructor 2.
fn add_course(ledger: &mut Ledger, id: &str) -> Result<Address, ErrorCode> {
    let ctx = CreateCourse { course: course_address(id), lms_account: lms_address(), instructor: signed(2) };
    create_course(ledger, &ctx, id.to_string(), "Rust 101".to_string(), "desc".to_string(), 1000, 50, 1_700_000_000)
        .map(|e| e.course)
}

/// Enrolls student 3.
fn add_enrollment(ledger: &mut Ledger, id: &str, course: &str) -> Result<Address, ErrorCode> {
    let ctx = EnrollStudent {
        enrollment: enrollment_address(id),
        course: course_address(course),
        lms_account: lms_address(),
        student: signed(3),
    };
    enroll_student(ledger, &ctx, id.to_string(), 1_700_000_100).map(|e| e.enrollment)
}

fn root(ledger: &Ledger) -> &LmsAccount {
    match ledger.get(&lms_address()) {
        Some(Record::Lms(l)) => l,
        _ => panic!("no root record"),
    }
}

fn students_in(ledger: &Ledger, course: &str) -> u32 {
    match ledger.get(&course_address(course)) {
        Some(Record::Course(c)) => c.current_students,
        _ => panic!("no course"),
    }
}

fn progress_of(ledger: &Ledger, id: &str) -> u8 {
    match ledger.get(&enrollment_address(id)) {
        Some(Record::Enrollment(e)) => e.progress,
        _ => panic!("no enrollment"),
    }
}

#[test]
fn end_to_end_scenario() {
    let mut ledger = set_up();
    add_course(&mut ledger, "c1").unwrap();
    add_enrollment(&mut ledger, "e1", "c1").unwrap();
    let progress = UpdateProgress { enrollment: enrollment_address("e1"), student: signed(3) };
    let updated = update_progress(&mut ledger, &progress, 75).unwrap();
    assert_eq!(updated.progress, 75);
    let issue = IssueCertificate {
        certificate: certificate_address("cert1"),
        course: course_address("c1"),
        student: key(3),
        instructor: signed(2),
    };
    let issued = issue_certificate(
        &mut ledger,
        &issue,
        "cert1".to_string(),
        CredentialType::Diploma,
        "uri://x".to_string(),
        1_700_000_200,
    )
    .unwrap();
    assert_eq!(issued.credential_type, CredentialType::Diploma);

    let lms = root(&ledger);
    assert_eq!(lms.total_courses, 1);
    assert_eq!(lms.total_students, 1);
    assert_eq!(lms.total_instructors, 0);
    assert_eq!(lms.name, "Acme LMS");
    assert_eq!(lms.authority, key(1));
    assert_eq!(students_in(&ledger, "c1"), 1);
    assert_eq!(progress_of(&ledger, "e1"), 75);
    match ledger.get(&certificate_address("cert1")) {
        Some(Record::Certificate(c)) => {
            assert!(c.is_verified);
            assert_eq!(c.credential_type, CredentialType::Diploma);
            assert_eq!(c.certificate_id, "cert1");
            assert_eq!(c.metadata_uri, "uri://x");
            assert_eq!(c.student, key(3));
            assert_eq!(c.instructor, key(2));
            assert_eq!(c.course, course_address("c1"));
            assert_eq!(c.issued_at, 1_700_000_200);
        }
        _ => panic!("no certificate"),
    }
}

#[test]
fn new_course_is_active_and_empty() {
    let mut ledger = set_up();
    add_course(&mut ledger, "c1").unwrap();
    match ledger.get(&course_address("c1")) {
        Some(Record::Course(c)) => {
            assert_eq!(c.course_id, "c1");
            assert_eq!(c.title, "Rust 101");
            assert_eq!(c.description, "desc");
            assert_eq!(c.instructor, key(2));
            assert_eq!(c.price, 1000);
            assert_eq!(c.max_students, 50);
            assert_eq!(c.current_students, 0);
            assert!(c.is_active);
            assert_eq!(c.created_at, 1_700_000_000);
            assert_eq!(c.bump, derive_course(&"c1".to_string(), &program_id()).unwrap().1);
        }
        _ => panic!("no course"),
    }
}

#[test]
fn progress_from_0_to_100_is_stored() {
    let mut ledger = set_up();
    add_course(&mut ledger, "c1").unwrap();
    add_enrollment(&mut ledger, "e1", "c1").unwrap();
    assert_eq!(progress_of(&ledger, "e1"), 0);
    let ctx = UpdateProgress { enrollment: enrollment_address("e1"), student: signed(3) };
    for p in 0..=100u8 {
        let event = update_progress(&mut ledger, &ctx, p).unwrap();
        assert_eq!(event.progress, p);
        assert_eq!(event.student, key(3));
        assert_eq!(progress_of(&ledger, "e1"), p);
    }
}

#[test]
fn progress_above_100_is_invalid() {
    let mut ledger = set_up();
    add_course(&mut ledger, "c1").unwrap();
    add_enrollment(&mut ledger, "e1", "c1").unwrap();
    let ctx = UpdateProgress { enrollment: enrollment_address("e1"), student: signed(3) };
    update_progress(&mut ledger, &ctx, 40).unwrap();
    for p in [101u8, 150, 255] {
        assert_eq!(update_progress(&mut ledger, &ctx, p).unwrap_err(), ErrorCode::InvalidProgress);
        assert_eq!(progress_of(&ledger, "e1"), 40);
    }
}

#[test]
fn progress_by_another_identity_is_unauthorized() {
    let mut ledger = set_up();
    add_course(&mut ledger, "c1").unwrap();
    add_enrollment(&mut ledger, "e1", "c1").unwrap();
    let own = UpdateProgress { enrollment: enrollment_address("e1"), student: signed(3) };
    update_progress(&mut ledger, &own, 10).unwrap();
    let other = UpdateProgress { enrollment: enrollment_address("e1"), student: signed(4) };
    assert_eq!(update_progress(&mut ledger, &other, 90).unwrap_err(), ErrorCode::Unauthorized);
    assert_eq!(update_progress(&mut ledger, &other, 200).unwrap_err(), ErrorCode::Unauthorized);
    assert_eq!(progress_of(&ledger, "e1"), 10);
}

#[test]
fn unsigned_requests_are_refused() {
    let mut ledger = Ledger::new(program_id());
    let unsigned = Signer { key: key(1), signed: false };
    let init = InitializeLms { lms_account: lms_address(), authority: unsigned };
    assert_eq!(
        initialize_lms(&mut ledger, &init, "n".to_string(), "d".to_string()).unwrap_err(),
        ErrorCode::MissingSignature
    );
    assert!(!ledger.exists_at(&lms_address()));
    let mut ledger = set_up();
    add_course(&mut ledger, "c1").unwrap();
    add_enrollment(&mut ledger, "e1", "c1").unwrap();
    let ctx = UpdateProgress {
        enrollment: enrollment_address("e1"),
        student: Signer { key: key(3), signed: false },
    };
    assert_eq!(update_progress(&mut ledger, &ctx, 5).unwrap_err(), ErrorCode::MissingSignature);
    assert_eq!(progress_of(&ledger, "e1"), 0);
}

#[test]
fn second_initialize_fails() {
    let mut ledger = set_up();
    let ctx = InitializeLms { lms_account: lms_address(), authority: signed(9) };
    assert_eq!(
        initialize_lms(&mut ledger, &ctx, "Other".to_string(), "x".to_string()).unwrap_err(),
        ErrorCode::AlreadyExists
    );
    assert_eq!(root(&ledger).name, "Acme LMS");
    assert_eq!(root(&ledger).authority, key(1));
}

#[test]
fn same_course_id_twice_fails() {
    let mut ledger = set_up();
    add_course(&mut ledger, "c1").unwrap();
    let again = CreateCourse { course: course_address("c1"), lms_account: lms_address(), instructor: signed(7) };
    let r = create_course(&mut ledger, &again, "c1".to_string(), "Other".to_string(), "other".to_string(), 5, 6, 99);
    assert_eq!(r.unwrap_err(), ErrorCode::AlreadyExists);
    assert_eq!(root(&ledger).total_courses, 1);
    match ledger.get(&course_address("c1")) {
        Some(Record::Course(c)) => {
            assert_eq!(c.title, "Rust 101");
            assert_eq!(c.description, "desc");
            assert_eq!(c.instructor, key(2));
            assert_eq!(c.price, 1000);
            assert_eq!(c.max_students, 50);
            assert_eq!(c.created_at, 1_700_000_000);
        }
        _ => panic!("no course"),
    }
}

#[test]
fn n_courses_are_counted() {
    let mut ledger = set_up();
    assert_eq!(root(&ledger).total_courses, 0);
    for n in 1..=12u64 {
        add_course(&mut ledger, &format!("course-{}", n)).unwrap();
        assert_eq!(root(&ledger).total_courses, n);
    }
    assert_eq!(root(&ledger).total_students, 0);
}

#[test]
fn enrollment_counts_one_in_its_course_only() {
    let mut ledger = set_up();
    add_course(&mut ledger, "c1").unwrap();
    add_course(&mut ledger, "c2").unwrap();
    add_enrollment(&mut ledger, "e1", "c1").unwrap();
    assert_eq!(students_in(&ledger, "c1"), 1);
    assert_eq!(students_in(&ledger, "c2"), 0);
    assert_eq!(root(&ledger).total_students, 1);
    add_enrollment(&mut ledger, "e2", "c2").unwrap();
    add_enrollment(&mut ledger, "e3", "c1").unwrap();
    assert_eq!(students_in(&ledger, "c1"), 2);
    assert_eq!(students_in(&ledger, "c2"), 1);
    assert_eq!(root(&ledger).total_students, 3);
    assert_eq!(root(&ledger).total_courses, 2);
    match ledger.get(&enrollment_address("e2")) {
        Some(Record::Enrollment(e)) => {
            assert_eq!(e.enrollment_id, "e2");
            assert_eq!(e.student, key(3));
            assert_eq!(e.course, course_address("c2"));
            assert_eq!(e.enrolled_at, 1_700_000_100);
            assert!(e.is_active);
            assert_eq!(e.progress, 0);
        }
        _ => panic!("no enrollment"),
    }
}

#[test]
fn enrollment_is_not_gated_by_capacity() {
    let mut ledger = set_up();
    let ctx = CreateCourse { course: course_address("tiny"), lms_account: lms_address(), instructor: signed(2) };
    create_course(&mut ledger, &ctx, "tiny".to_string(), "t".to_string(), "d".to_string(), 0, 1, 0).unwrap();
    add_enrollment(&mut ledger, "e1", "tiny").unwrap();
    add_enrollment(&mut ledger, "e2", "tiny").unwrap();
    assert_eq!(students_in(&ledger, "tiny"), 2);
}

#[test]
fn same_enrollment_id_twice_fails() {
    let mut ledger = set_up();
    add_course(&mut ledger, "c1").unwrap();
    add_enrollment(&mut ledger, "e1", "c1").unwrap();
    assert_eq!(add_enrollment(&mut ledger, "e1", "c1").unwrap_err(), ErrorCode::AlreadyExists);
    assert_eq!(students_in(&ledger, "c1"), 1);
    assert_eq!(root(&ledger).total_students, 1);
}

#[test]
fn missing_records_are_not_found() {
    let mut ledger = Ledger::new(program_id());
    assert_eq!(add_course(&mut ledger, "c1").unwrap_err(), ErrorCode::NotFound);
    let mut ledger = set_up();
    assert_eq!(add_enrollment(&mut ledger, "e1", "c1").unwrap_err(), ErrorCode::NotFound);
    let ctx = UpdateProgress { enrollment: enrollment_address("e1"), student: signed(3) };
    assert_eq!(update_progress(&mut ledger, &ctx, 1).unwrap_err(), ErrorCode::NotFound);
    // A record of another type at the named address is no enrollment.
    let wrong = UpdateProgress { enrollment: lms_address(), student: signed(3) };
    assert_eq!(update_progress(&mut ledger, &wrong, 1).unwrap_err(), ErrorCode::NotFound);
    assert_eq!(root(&ledger).total_students, 0);
}

#[test]
fn spoofed_addresses_are_refused() {
    let mut ledger = set_up();
    let spoof = CreateCourse { course: key(42), lms_account: lms_address(), instructor: signed(2) };
    let r = create_course(&mut ledger, &spoof, "c1".to_string(), "t".to_string(), "d".to_string(), 1, 1, 0);
    assert_eq!(r.unwrap_err(), ErrorCode::AddressMismatch);
    let swapped = CreateCourse { course: course_address("c2"), lms_account: lms_address(), instructor: signed(2) };
    let r = create_course(&mut ledger, &swapped, "c1".to_string(), "t".to_string(), "d".to_string(), 1, 1, 0);
    assert_eq!(r.unwrap_err(), ErrorCode::AddressMismatch);
    assert!(!ledger.exists_at(&key(42)));
    assert!(!ledger.exists_at(&course_address("c2")));
    assert_eq!(root(&ledger).total_courses, 0);
    let mut empty = Ledger::new(program_id());
    let init = InitializeLms { lms_account: key(5), authority: signed(1) };
    assert_eq!(
        initialize_lms(&mut empty, &init, "n".to_string(), "d".to_string()).unwrap_err(),
        ErrorCode::AddressMismatch
    );
}

#[test]
fn a_stored_nonce_that_differs_is_refused() {
    let mut ledger = Ledger::new(program_id());
    let (address, bump) = derive_lms(&program_id()).unwrap();
    ledger.put(
        address,
        Record::Lms(LmsAccount {
            authority: key(1),
            name: "n".to_string(),
            description: "d".to_string(),
            total_courses: 0,
            total_students: 0,
            total_instructors: 0,
            bump: bump.wrapping_sub(1),
        }),
    );
    assert_eq!(add_course(&mut ledger, "c1").unwrap_err(), ErrorCode::AddressMismatch);
}

#[test]
fn texts_over_their_width_are_refused() {
    let mut ledger = Ledger::new(program_id());
    let init = InitializeLms { lms_account: lms_address(), authority: signed(1) };
    assert_eq!(
        initialize_lms(&mut ledger, &init, "x".repeat(257), "d".to_string()).unwrap_err(),
        ErrorCode::FieldTooLong
    );
    assert_eq!(
        initialize_lms(&mut ledger, &init, "n".to_string(), "x".repeat(257)).unwrap_err(),
        ErrorCode::FieldTooLong
    );
    initialize_lms(&mut ledger, &init, "x".repeat(256), "y".repeat(256)).unwrap();
    let long_id = "i".repeat(65);
    let ctx = CreateCourse { course: key(8), lms_account: lms_address(), instructor: signed(2) };
    let r = create_course(&mut ledger, &ctx, long_id, "t".to_string(), "d".to_string(), 1, 1, 0);
    assert_eq!(r.unwrap_err(), ErrorCode::FieldTooLong);
}

#[test]
fn ids_of_up_to_64_bytes_have_addresses() {
    let program = Pubkey::new_from_array(program_id().bytes);
    for n in [0usize, 1, 31, 32, 33, 48, 63, 64] {
        let id = "i".repeat(n);
        let derived = derive_course(&id, &program_id());
        let bytes = id.as_bytes();
        let expected = if n <= 32 {
            Pubkey::find_program_address(&[b"course", bytes], &program)
        } else {
            Pubkey::find_program_address(&[b"course", &bytes[..32], &bytes[32..]], &program)
        };
        assert_eq!(derived, Some((Address::new(expected.0.to_bytes()), expected.1)));
        assert!(derive_enrollment(&id, &program_id()).is_some());
        assert!(derive_certificate(&id, &program_id()).is_some());
    }
    // Ids that differ only after the 32nd byte have different addresses.
    let one = format!("{}{}", "i".repeat(32), "a");
    let two = format!("{}{}", "i".repeat(32), "b");
    assert_ne!(derive_course(&one, &program_id()), derive_course(&two, &program_id()));
    assert_ne!(derive_course(&one, &program_id()), derive_course(&"i".repeat(32), &program_id()));
}

#[test]
fn longest_legal_course_is_stored_whole() {
    let mut ledger = set_up();
    let id = "k".repeat(64);
    let title = "t".repeat(256);
    let description = "d".repeat(256);
    let address = derive_course(&id, &program_id()).unwrap().0;
    let ctx = CreateCourse { course: address, lms_account: lms_address(), instructor: signed(2) };
    let event = create_course(&mut ledger, &ctx, id.clone(), title.clone(), description.clone(), 7, 8, 9).unwrap();
    assert_eq!(event.course, address);
    assert_eq!(event.course_id, id);
    match ledger.get(&address) {
        Some(Record::Course(c)) => {
            assert_eq!(c.course_id, id);
            assert_eq!(c.title, title);
            assert_eq!(c.description, description);
            assert_eq!(c.course_id.len(), 64);
            assert_eq!(c.title.len(), 256);
            assert_eq!(c.description.len(), 256);
        }
        _ => panic!("no course"),
    }
    assert_eq!(root(&ledger).total_courses, 1);
    let again = create_course(&mut ledger, &ctx, id.clone(), "x".to_string(), "y".to_string(), 1, 1, 10);
    assert_eq!(again.unwrap_err(), ErrorCode::AlreadyExists);
    assert_eq!(root(&ledger).total_courses, 1);
    // A spoofed address for the same long id is still refused.
    let spoof = CreateCourse { course: key(8), lms_account: lms_address(), instructor: signed(2) };
    let r = create_course(&mut ledger, &spoof, id, "x".to_string(), "y".to_string(), 1, 1, 10);
    assert_eq!(r.unwrap_err(), ErrorCode::AddressMismatch);
}

#[test]
fn long_ids_enroll_progress_and_certify() {
    let mut ledger = set_up();
    let course_id = "c".repeat(64);
    let enrollment_id = "e".repeat(50);
    let certificate_id = "z".repeat(33);
    add_course(&mut ledger, &course_id).unwrap();
    add_enrollment(&mut ledger, &enrollment_id, &course_id).unwrap();
    let progress = UpdateProgress { enrollment: enrollment_address(&enrollment_id), student: signed(3) };
    update_progress(&mut ledger, &progress, 100).unwrap();
    assert_eq!(progress_of(&ledger, &enrollment_id), 100);
    assert_eq!(students_in(&ledger, &course_id), 1);
    let issue = IssueCertificate {
        certificate: certificate_address(&certificate_id),
        course: course_address(&course_id),
        student: key(3),
        instructor: signed(2),
    };
    issue_certificate(&mut ledger, &issue, certificate_id.clone(), CredentialType::Certificate, "u".to_string(), 5)
        .unwrap();
    assert!(ledger.exists_at(&certificate_address(&certificate_id)));
}

#[test]
fn an_id_over_64_bytes_is_refused() {
    let id = "i".repeat(65);
    let mut ledger = set_up();
    let ctx = CreateCourse { course: key(8), lms_account: lms_address(), instructor: signed(2) };
    let r = create_course(&mut ledger, &ctx, id.clone(), "t".to_string(), "d".to_string(), 1, 1, 0);
    assert_eq!(r.unwrap_err(), ErrorCode::FieldTooLong);
    assert!(derive_course(&id, &program_id()).is_none());
    add_course(&mut ledger, "c1").unwrap();
    let enroll = EnrollStudent {
        enrollment: key(9),
        course: course_address("c1"),
        lms_account: lms_address(),
        student: signed(3),
    };
    assert_eq!(enroll_student(&mut ledger, &enroll, "e".repeat(65), 0).unwrap_err(), ErrorCode::FieldTooLong);
    assert_eq!(root(&ledger).total_courses, 1);
    assert_eq!(root(&ledger).total_students, 0);
}

#[test]
fn courses_are_counted_among_other_operations() {
    let mut ledger = set_up();
    let count = |l: &Ledger, ids: &[&str]| ids.iter().filter(|id| l.exists_at(&course_address(id))).count() as u64;
    let ids = ["a", "b", "c", "d"];
    add_course(&mut ledger, "a").unwrap();
    add_enrollment(&mut ledger, "e1", "a").unwrap();
    assert_eq!(add_course(&mut ledger, "a").unwrap_err(), ErrorCode::AlreadyExists);
    add_course(&mut ledger, "b").unwrap();
    let progress = UpdateProgress { enrollment: enrollment_address("e1"), student: signed(3) };
    update_progress(&mut ledger, &progress, 20).unwrap();
    let award = award_request(AchievementType::Participation, signed(1));
    award_tokens(&mut ledger, &award, 3, AchievementType::Participation, 1).unwrap();
    add_course(&mut ledger, "c").unwrap();
    add_enrollment(&mut ledger, "e2", "b").unwrap();
    assert_eq!(root(&ledger).total_courses, 3);
    assert_eq!(count(&ledger, &ids), 3);
    add_course(&mut ledger, "d").unwrap();
    assert_eq!(root(&ledger).total_courses, 4);
    assert_eq!(count(&ledger, &ids), 4);
    assert_eq!(root(&ledger).total_students, 2);
}

#[test]
fn a_full_counter_refuses_the_next_course() {
    let mut ledger = Ledger::new(program_id());
    let (address, bump) = derive_lms(&program_id()).unwrap();
    ledger.put(
        address,
        Record::Lms(LmsAccount {
            authority: key(1),
            name: "n".to_string(),
            description: "d".to_string(),
            total_courses: u64::MAX,
            total_students: 0,
            total_instructors: 0,
            bump,
        }),
    );
    assert_eq!(add_course(&mut ledger, "c1").unwrap_err(), ErrorCode::CounterOverflow);
    assert!(!ledger.exists_at(&course_address("c1")));
    assert_eq!(root(&ledger).total_courses, u64::MAX);
}

#[test]
fn only_the_course_instructor_issues() {
    let mut ledger = set_up();
    add_course(&mut ledger, "c1").unwrap();
    let ctx = IssueCertificate {
        certificate: certificate_address("cert1"),
        course: course_address("c1"),
        student: key(3),
        instructor: signed(6),
    };
    let r = issue_certificate(&mut ledger, &ctx, "cert1".to_string(), CredentialType::Badge, "u".to_string(), 0);
    assert_eq!(r.unwrap_err(), ErrorCode::Unauthorized);
    assert!(!ledger.exists_at(&certificate_address("cert1")));
    let own = IssueCertificate { instructor: signed(2), ..ctx };
    issue_certificate(&mut ledger, &own, "cert1".to_string(), CredentialType::Badge, "u".to_string(), 0).unwrap();
    let again =
        issue_certificate(&mut ledger, &own, "cert1".to_string(), CredentialType::Certificate, "v".to_string(), 1);
    assert_eq!(again.unwrap_err(), ErrorCode::AlreadyExists);
    match ledger.get(&certificate_address("cert1")) {
        Some(Record::Certificate(c)) => assert_eq!(c.credential_type, CredentialType::Badge),
        _ => panic!("no certificate"),
    }
}

fn award_request(kind: AchievementType, authority: Signer) -> AwardTokens {
    AwardTokens {
        achievement: derive_achievement(&key(3), kind, &program_id()).unwrap().0,
        lms_account: lms_address(),
        student: key(3),
        reward_source: key(20),
        student_token_account: key(21),
        authority,
    }
}

#[test]
fn award_once_per_student_and_kind() {
    let mut ledger = set_up();
    let ctx = award_request(AchievementType::QuizMaster, signed(1));
    let (event, transfer) = award_tokens(&mut ledger, &ctx, 500, AchievementType::QuizMaster, 77).unwrap();
    assert_eq!(event.student, key(3));
    assert_eq!(event.amount, 500);
    assert_eq!(event.achievement_type, AchievementType::QuizMaster);
    assert_eq!(transfer.from, key(20));
    assert_eq!(transfer.to, key(21));
    assert_eq!(transfer.authority, key(1));
    assert_eq!(transfer.amount, 500);
    match ledger.get(&ctx.achievement) {
        Some(Record::Achievement(a)) => {
            assert_eq!(a.student, key(3));
            assert_eq!(a.achievement_type, AchievementType::QuizMaster);
            assert_eq!(a.amount, 500);
            assert_eq!(a.awarded_at, 77);
        }
        _ => panic!("no achievement"),
    }
    let second = award_tokens(&mut ledger, &ctx, 900, AchievementType::QuizMaster, 78);
    assert_eq!(second.unwrap_err(), ErrorCode::AlreadyExists);
    match ledger.get(&ctx.achievement) {
        Some(Record::Achievement(a)) => assert_eq!(a.amount, 500),
        _ => panic!("no achievement"),
    }
    // Another kind for the same student is another record.
    let other = award_request(AchievementType::Leadership, signed(1));
    assert_ne!(other.achievement, ctx.achievement);
    award_tokens(&mut ledger, &other, 1, AchievementType::Leadership, 79).unwrap();
}

#[test]
fn only_the_authority_awards() {
    let mut ledger = set_up();
    let ctx = award_request(AchievementType::Innovation, signed(2));
    let r = award_tokens(&mut ledger, &ctx, 5, AchievementType::Innovation, 0);
    assert_eq!(r.unwrap_err(), ErrorCode::Unauthorized);
    assert!(!ledger.exists_at(&ctx.achievement));
    // The address is derived from the kind: another kind's address is refused.
    let ctx = award_request(AchievementType::Innovation, signed(1));
    let r = award_tokens(&mut ledger, &ctx, 5, AchievementType::Participation, 0);
    assert_eq!(r.unwrap_err(), ErrorCode::AddressMismatch);
}

#[test]
fn a_failed_transfer_is_passed_on() {
    let event = TokensAwarded { student: key(3), amount: 9, achievement_type: AchievementType::CourseCompletion };
    let kept = settle_award(event, true).unwrap();
    assert_eq!(kept.amount, 9);
    assert_eq!(kept.student, key(3));
    let event = TokensAwarded { student: key(3), amount: 9, achievement_type: AchievementType::CourseCompletion };
    assert_eq!(settle_award(event, false).unwrap_err(), ErrorCode::TransferFailed);
}

#[test]
fn derivation_is_the_hosts() {
    let program = Pubkey::new_from_array(program_id().bytes);
    assert_eq!(program.to_string(), "Fg6PaFpoGXkYsidMpWTK6W2BeZ7FEfcYkg476zPFsLnS");
    let (pda, bump) = Pubkey::find_program_address(&[b"lms"], &program);
    assert_eq!(derive_lms(&program_id()), Some((Address::new(pda.to_bytes()), bump)));
    let (pda, bump) = Pubkey::find_program_address(&[b"course", b"c1"], &program);
    assert_eq!(derive_course(&"c1".to_string(), &program_id()), Some((Address::new(pda.to_bytes()), bump)));
    let (pda, bump) = Pubkey::find_program_address(&[b"enrollment", b"e1"], &program);
    assert_eq!(derive_enrollment(&"e1".to_string(), &program_id()), Some((Address::new(pda.to_bytes()), bump)));
    let (pda, bump) = Pubkey::find_program_address(&[b"certificate", b"cert1"], &program);
    assert_eq!(
        derive_certificate(&"cert1".to_string(), &program_id()),
        Some((Address::new(pda.to_bytes()), bump))
    );
    let student = key(3);
    let (pda, bump) = Pubkey::find_program_address(&[b"achievement", &student.bytes, b"QuizMaster"], &program);
    assert_eq!(
        derive_achievement(&student, AchievementType::QuizMaster, &program_id()),
        Some((Address::new(pda.to_bytes()), bump))
    );
    assert_ne!(course_address("c1"), course_address("c2"));
    assert_ne!(course_address("c1"), enrollment_address("c1"));
    assert_ne!(derive_lms(&program_id()), derive_lms(&key(1)));
}

#[test]
fn operations_on_given_derivations() {
    let mut ledger = Ledger::new(key(0));
    let init = InitializeLms { lms_account: key(10), authority: signed(1) };
    let r = apply_initialize_lms(&mut ledger, &init, "n".to_string(), "d".to_string(), None);
    assert_eq!(r.unwrap_err(), ErrorCode::AddressMismatch);
    let r = apply_initialize_lms(&mut ledger, &init, "n".to_string(), "d".to_string(), Some((key(11), 250)));
    assert_eq!(r.unwrap_err(), ErrorCode::AddressMismatch);
    let event =
        apply_initialize_lms(&mut ledger, &init, "n".to_string(), "d".to_string(), Some((key(10), 250))).unwrap();
    assert_eq!(event.authority, key(1));
    assert_eq!(event.lms_account, key(10));
    match ledger.get(&key(10)) {
        Some(Record::Lms(l)) => assert_eq!(l.bump, 250),
        _ => panic!("no root record"),
    }
    let ctx = CreateCourse { course: key(12), lms_account: key(10), instructor: signed(2) };
    let r = apply_create_course(
        &mut ledger,
        &ctx,
        "c".to_string(),
        "t".to_string(),
        "d".to_string(),
        1,
        2,
        3,
        Some((key(10), 249)),
        Some((key(12), 255)),
    );
    assert_eq!(r.unwrap_err(), ErrorCode::AddressMismatch);
    let event = apply_create_course(
        &mut ledger,
        &ctx,
        "c".to_string(),
        "t".to_string(),
        "d".to_string(),
        1,
        2,
        3,
        Some((key(10), 250)),
        Some((key(12), 255)),
    )
    .unwrap();
    assert_eq!(event.course, key(12));
    assert_eq!(event.instructor, key(2));
    assert_eq!(event.course_id, "c");
    match ledger.get(&key(12)) {
        Some(Record::Course(c)) => assert_eq!(c.bump, 255),
        _ => panic!("no course"),
    }
}

#[test]
fn addresses_compare_by_bytes() {
    let mut bytes = [7u8; 32];
    assert!(key(7).same(&Address::new(bytes)));
    bytes[31] = 8;
    assert!(!key(7).same(&Address::new(bytes)));
    bytes[31] = 7;
    bytes[0] = 0;
    assert!(!key(7).same(&Address::new(bytes)));
}

#[test]
fn achievement_kinds_have_their_names() {
    assert_eq!(AchievementType::CourseCompletion.label(), "CourseCompletion");
    assert_eq!(AchievementType::QuizMaster.label(), "QuizMaster");
    assert_eq!(AchievementType::Participation.label(), "Participation");
    assert_eq!(AchievementType::Leadership.label(), "Leadership");
    assert_eq!(AchievementType::Innovation.label(), "Innovation");
}

#[test]
fn store_replaces_and_reads_back() {
    let mut ledger = Ledger::new(key(0));
    assert_eq!(ledger.program_id(), key(0));
    assert!(ledger.get(&key(1)).is_none());
    let record = |n: u64| {
        Record::Lms(LmsAccount {
            authority: key(1),
            name: "n".to_string(),
            description: "d".to_string(),
            total_courses: n,
            total_students: 0,
            total_instructors: 0,
            bump: 0,
        })
    };
    ledger.put(key(1), record(1));
    ledger.put(key(2), record(2));
    ledger.put(key(1), record(3));
    match (ledger.get(&key(1)), ledger.get(&key(2))) {
        (Some(Record::Lms(a)), Some(Record::Lms(b))) => {
            assert_eq!(a.total_courses, 3);
            assert_eq!(b.total_courses, 2);
        }
        _ => panic!("records missing"),
    }
    assert!(ledger.exists_at(&key(2)));
    assert!(!ledger.exists_at(&key(3)));
}
