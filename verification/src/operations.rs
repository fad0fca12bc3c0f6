//! The six operations. Each is refused as a whole on the first check that
//! fails, and otherwise creates or changes exactly the records it names.

use vstd::prelude::*;
use crate::types::{
    Achievement, AchievementType, Address, Certificate, CertificateIssued, Course, CourseCreated,
    CredentialType, Enrollment, ErrorCode, LmsAccount, LmsInitialized, ProgressUpdated, Record,
    Signer, StudentEnrolled, TokensAwarded, Transfer, MAX_ID_BYTES, MAX_PROGRESS, MAX_TEXT_BYTES,
};
use crate::ledger::Ledger;
use crate::derivation::{
    achievement_seeds, certificate_seeds, course_seeds, derive_achievement, derive_certificate,
    derive_course, derive_enrollment, derive_lms, derived_view, enrollment_seeds, lms_seeds,
    program_address,
};
use crate::guard::{
    byte_len, check_confirms, check_names, confirms, course_at, enrollment_at, fits, lms_at,
    load_course, load_enrollment, load_lms, names, nonce,
};

verus! {

/// The records and actors named by a request to set the system up.
#[derive(Clone, Copy, Debug)]
pub struct InitializeLms {
    pub lms_account: Address,
    pub authority: Signer,
}

/// The records and actors named by a request to create a course.
#[derive(Clone, Copy, Debug)]
pub struct CreateCourse {
    pub course: Address,
    pub lms_account: Address,
    pub instructor: Signer,
}

/// Why a request to set the system up is refused, if it is.
pub open spec fn initialize_lms_refusal(
    pre: Map<Address, Record>,
    ctx: InitializeLms,
    name: Seq<char>,
    description: Seq<char>,
    derived: Option<(Seq<u8>, u8)>,
) -> Option<ErrorCode> {
    if !ctx.authority.signed {
        Some(ErrorCode::MissingSignature)
    } else if byte_len(name) > MAX_TEXT_BYTES || byte_len(description) > MAX_TEXT_BYTES {
        Some(ErrorCode::FieldTooLong)
    } else if !names(derived, ctx.lms_account) {
        Some(ErrorCode::AddressMismatch)
    } else if pre.dom().contains(ctx.lms_account) {
        Some(ErrorCode::AlreadyExists)
    } else {
        None
    }
}

/// What setting the system up returns and leaves behind.
pub open spec fn initialize_lms_post(
    pre: Map<Address, Record>,
    post: Map<Address, Record>,
    r: Result<LmsInitialized, ErrorCode>,
    ctx: InitializeLms,
    name: String,
    description: String,
    derived: Option<(Seq<u8>, u8)>,
) -> bool {
    match initialize_lms_refusal(pre, ctx, name@, description@, derived) {
        Some(e) => r == Err::<LmsInitialized, ErrorCode>(e) && post == pre,
        None => {
            &&& r == Ok::<LmsInitialized, ErrorCode>(
                LmsInitialized { authority: ctx.authority.key, lms_account: ctx.lms_account },
            )
            &&& post == pre.insert(
                ctx.lms_account,
                Record::Lms(
                    LmsAccount {
                        authority: ctx.authority.key,
                        name,
                        description,
                        total_courses: 0,
                        total_students: 0,
                        total_instructors: 0,
                        bump: nonce(derived),
                    },
                ),
            )
        },
    }
}

/// Sets the system up, given what the root record's derivation gave.
pub fn apply_initialize_lms(
    ledger: &mut Ledger,
    ctx: &InitializeLms,
    name: String,
    description: String,
    derived: Option<(Address, u8)>,
) -> (r: Result<LmsInitialized, ErrorCode>)
    requires
        old(ledger).wf(),
    ensures
        final(ledger).wf(),
        final(ledger).program() == old(ledger).program(),
        initialize_lms_post(old(ledger)@, final(ledger)@, r, *ctx, name, description, derived_view(derived)),
{
    if !ctx.authority.signed {
        return Err(ErrorCode::MissingSignature);
    }
    if !fits(&name, MAX_TEXT_BYTES) || !fits(&description, MAX_TEXT_BYTES) {
        return Err(ErrorCode::FieldTooLong);
    }
    if !check_names(&derived, &ctx.lms_account) {
        return Err(ErrorCode::AddressMismatch);
    }
    if ledger.exists_at(&ctx.lms_account) {
        return Err(ErrorCode::AlreadyExists);
    }
    let bump: u8 = match derived {
        Some((_, b)) => b,
        None => 0,
    };
    ledger.put(
        ctx.lms_account,
        Record::Lms(
            LmsAccount {
                authority: ctx.authority.key,
                name,
                description,
                total_courses: 0,
                total_students: 0,
                total_instructors: 0,
                bump,
            },
        ),
    );
    Ok(LmsInitialized { authority: ctx.authority.key, lms_account: ctx.lms_account })
}

/// Creates the root record at its well-known address, owned by the signing
/// authority, with all counters at zero. Refused if the authority did not
/// sign, a text is too long, the supplied address is not the derived one, or
/// the root record already exists.
pub fn initialize_lms(ledger: &mut Ledger, ctx: &InitializeLms, name: String, description: String) -> (r: Result<
    LmsInitialized,
    ErrorCode,
>)
    requires
        old(ledger).wf(),
    ensures
        final(ledger).wf(),
        final(ledger).program() == old(ledger).program(),
        initialize_lms_post(
            old(ledger)@,
            final(ledger)@,
            r,
            *ctx,
            name,
            description,
            program_address(lms_seeds(), old(ledger).program()@),
        ),
{
    let derived = derive_lms(&ledger.program_id());
    apply_initialize_lms(ledger, ctx, name, description, derived)
}

/// Why a request to create a course is refused, if it is.
pub open spec fn create_course_refusal(
    pre: Map<Address, Record>,
    ctx: CreateCourse,
    course_id: Seq<char>,
    title: Seq<char>,
    description: Seq<char>,
    derived_lms: Option<(Seq<u8>, u8)>,
    derived_course: Option<(Seq<u8>, u8)>,
) -> Option<ErrorCode> {
    if !ctx.instructor.signed {
        Some(ErrorCode::MissingSignature)
    } else if byte_len(course_id) > MAX_ID_BYTES || byte_len(title) > MAX_TEXT_BYTES || byte_len(description)
        > MAX_TEXT_BYTES {
        Some(ErrorCode::FieldTooLong)
    } else if lms_at(pre, ctx.lms_account) is None {
        Some(ErrorCode::NotFound)
    } else if !confirms(derived_lms, ctx.lms_account, lms_at(pre, ctx.lms_account).unwrap().bump) {
        Some(ErrorCode::AddressMismatch)
    } else if !names(derived_course, ctx.course) {
        Some(ErrorCode::AddressMismatch)
    } else if pre.dom().contains(ctx.course) {
        Some(ErrorCode::AlreadyExists)
    } else if lms_at(pre, ctx.lms_account).unwrap().total_courses == u64::MAX {
        Some(ErrorCode::CounterOverflow)
    } else {
        None
    }
}

/// The root record with one more course counted.
pub open spec fn with_one_more_course(lms: LmsAccount) -> LmsAccount {
    LmsAccount { total_courses: (lms.total_courses + 1) as u64, ..lms }
}

/// What creating a course returns and leaves behind.
pub open spec fn create_course_post(
    pre: Map<Address, Record>,
    post: Map<Address, Record>,
    r: Result<CourseCreated, ErrorCode>,
    ctx: CreateCourse,
    course_id: String,
    title: String,
    description: String,
    price: u64,
    max_students: u32,
    now: i64,
    derived_lms: Option<(Seq<u8>, u8)>,
    derived_course: Option<(Seq<u8>, u8)>,
) -> bool {
    match create_course_refusal(pre, ctx, course_id@, title@, description@, derived_lms, derived_course) {
        Some(e) => r == Err::<CourseCreated, ErrorCode>(e) && post == pre,
        None => {
            &&& r matches Ok(event)
            &&& event.course == ctx.course
            &&& event.instructor == ctx.instructor.key
            &&& event.course_id@ == course_id@
            &&& post == pre.insert(
                ctx.lms_account,
                Record::Lms(with_one_more_course(lms_at(pre, ctx.lms_account).unwrap())),
            ).insert(
                ctx.course,
                Record::Course(
                    Course {
                        course_id,
                        title,
                        description,
                        instructor: ctx.instructor.key,
                        price,
                        max_students,
                        current_students: 0,
                        is_active: true,
                        created_at: now,
                        bump: nonce(derived_course),
                    },
                ),
            )
        },
    }
}

/// Creates a course, given what the derivations of the root record and of
/// the course gave.
pub fn apply_create_course(
    ledger: &mut Ledger,
    ctx: &CreateCourse,
    course_id: String,
    title: String,
    description: String,
    price: u64,
    max_students: u32,
    now: i64,
    derived_lms: Option<(Address, u8)>,
    derived_course: Option<(Address, u8)>,
) -> (r: Result<CourseCreated, ErrorCode>)
    requires
        old(ledger).wf(),
    ensures
        final(ledger).wf(),
        final(ledger).program() == old(ledger).program(),
        create_course_post(
            old(ledger)@,
            final(ledger)@,
            r,
            *ctx,
            course_id,
            title,
            description,
            price,
            max_students,
            now,
            derived_view(derived_lms),
            derived_view(derived_course),
        ),
{
    if !ctx.instructor.signed {
        return Err(ErrorCode::MissingSignature);
    }
    if !fits(&course_id, MAX_ID_BYTES) || !fits(&title, MAX_TEXT_BYTES) || !fits(&description, MAX_TEXT_BYTES) {
        return Err(ErrorCode::FieldTooLong);
    }
    match load_lms(ledger, &ctx.lms_account) {
        None => {
            return Err(ErrorCode::NotFound);
        },
        Some(lms) => {
            if !check_confirms(&derived_lms, &ctx.lms_account, lms.bump) {
                return Err(ErrorCode::AddressMismatch);
            }
            if !check_names(&derived_course, &ctx.course) {
                return Err(ErrorCode::AddressMismatch);
            }
            if ledger.exists_at(&ctx.course) {
                return Err(ErrorCode::AlreadyExists);
            }
            if lms.total_courses == u64::MAX {
                return Err(ErrorCode::CounterOverflow);
            }
        },
    }
    let bump: u8 = match derived_course {
        Some((_, b)) => b,
        None => 0,
    };
    let event = CourseCreated { course: ctx.course, instructor: ctx.instructor.key, course_id: course_id.clone() };
    match ledger.get_mut(&ctx.lms_account) {
        Some(Record::Lms(lms)) => {
            lms.total_courses = lms.total_courses + 1;
        },
        _ => {},
    }
    ledger.put(
        ctx.course,
        Record::Course(
            Course {
                course_id,
                title,
                description,
                instructor: ctx.instructor.key,
                price,
                max_students,
                current_students: 0,
                is_active: true,
                created_at: now,
                bump,
            },
        ),
    );
    Ok(event)
}

/// Creates the course with the given id, owned by the signing instructor,
/// active and with no students, and counts it in the root record. Refused if
/// the instructor did not sign, a text is too long, the root record is
/// missing or not at its derived address, the supplied course address is not
/// the one derived from the id, a record already exists there, or the
/// counter is at its maximum.
pub fn create_course(
    ledger: &mut Ledger,
    ctx: &CreateCourse,
    course_id: String,
    title: String,
    description: String,
    price: u64,
    max_students: u32,
    now: i64,
) -> (r: Result<CourseCreated, ErrorCode>)
    requires
        old(ledger).wf(),
    ensures
        final(ledger).wf(),
        final(ledger).program() == old(ledger).program(),
        create_course_post(
            old(ledger)@,
            final(ledger)@,
            r,
            *ctx,
            course_id,
            title,
            description,
            price,
            max_students,
            now,
            program_address(lms_seeds(), old(ledger).program()@),
            program_address(course_seeds(course_id@), old(ledger).program()@),
        ),
{
    let program = ledger.program_id();
    let derived_lms = derive_lms(&program);
    let derived_course = derive_course(&course_id, &program);
    apply_create_course(ledger, ctx, course_id, title, description, price, max_students, now, derived_lms, derived_course)
}

/// The records and actors named by a request to enroll.
#[derive(Clone, Copy, Debug)]
pub struct EnrollStudent {
    pub enrollment: Address,
    pub course: Address,
    pub lms_account: Address,
    pub student: Signer,
}

/// The derivation of the course stored at `a`, from the id it keeps.
pub open spec fn stored_course_address(pre: Map<Address, Record>, a: Address, program: Address) -> Option<
    (Seq<u8>, u8),
> {
    match course_at(pre, a) {
        Some(c) => program_address(course_seeds(c.course_id@), program@),
        None => None,
    }
}

/// The derivation of the enrollment stored at `a`, from the id it keeps.
pub open spec fn stored_enrollment_address(pre: Map<Address, Record>, a: Address, program: Address) -> Option<
    (Seq<u8>, u8),
> {
    match enrollment_at(pre, a) {
        Some(e) => program_address(enrollment_seeds(e.enrollment_id@), program@),
        None => None,
    }
}

fn rederive_course(ledger: &Ledger, a: &Address) -> (r: Option<(Address, u8)>)
    requires
        ledger.wf(),
    ensures
        derived_view(r) == stored_course_address(ledger@, *a, ledger.program()),
{
    match load_course(ledger, a) {
        Some(c) => derive_course(&c.course_id, &ledger.program_id()),
        None => None,
    }
}

fn rederive_enrollment(ledger: &Ledger, a: &Address) -> (r: Option<(Address, u8)>)
    requires
        ledger.wf(),
    ensures
        derived_view(r) == stored_enrollment_address(ledger@, *a, ledger.program()),
{
    match load_enrollment(ledger, a) {
        Some(e) => derive_enrollment(&e.enrollment_id, &ledger.program_id()),
        None => None,
    }
}

/// Why a request to enroll is refused, if it is.
pub open spec fn enroll_student_refusal(
    pre: Map<Address, Record>,
    ctx: EnrollStudent,
    enrollment_id: Seq<char>,
    derived_lms: Option<(Seq<u8>, u8)>,
    derived_course: Option<(Seq<u8>, u8)>,
    derived_enrollment: Option<(Seq<u8>, u8)>,
) -> Option<ErrorCode> {
    if !ctx.student.signed {
        Some(ErrorCode::MissingSignature)
    } else if byte_len(enrollment_id) > MAX_ID_BYTES {
        Some(ErrorCode::FieldTooLong)
    } else if lms_at(pre, ctx.lms_account) is None {
        Some(ErrorCode::NotFound)
    } else if !confirms(derived_lms, ctx.lms_account, lms_at(pre, ctx.lms_account).unwrap().bump) {
        Some(ErrorCode::AddressMismatch)
    } else if course_at(pre, ctx.course) is None {
        Some(ErrorCode::NotFound)
    } else if !confirms(derived_course, ctx.course, course_at(pre, ctx.course).unwrap().bump) {
        Some(ErrorCode::AddressMismatch)
    } else if !names(derived_enrollment, ctx.enrollment) {
        Some(ErrorCode::AddressMismatch)
    } else if pre.dom().contains(ctx.enrollment) {
        Some(ErrorCode::AlreadyExists)
    } else if course_at(pre, ctx.course).unwrap().current_students == u32::MAX || lms_at(
        pre,
        ctx.lms_account,
    ).unwrap().total_students == u64::MAX {
        Some(ErrorCode::CounterOverflow)
    } else {
        None
    }
}

/// The root record with one more student counted.
pub open spec fn with_one_more_student(lms: LmsAccount) -> LmsAccount {
    LmsAccount { total_students: (lms.total_students + 1) as u64, ..lms }
}

/// The course with one more student in it.
pub open spec fn with_one_more_enrolled(course: Course) -> Course {
    Course { current_students: (course.current_students + 1) as u32, ..course }
}

/// What enrolling returns and leaves behind.
pub open spec fn enroll_student_post(
    pre: Map<Address, Record>,
    post: Map<Address, Record>,
    r: Result<StudentEnrolled, ErrorCode>,
    ctx: EnrollStudent,
    enrollment_id: String,
    now: i64,
    derived_lms: Option<(Seq<u8>, u8)>,
    derived_course: Option<(Seq<u8>, u8)>,
    derived_enrollment: Option<(Seq<u8>, u8)>,
) -> bool {
    match enroll_student_refusal(pre, ctx, enrollment_id@, derived_lms, derived_course, derived_enrollment) {
        Some(e) => r == Err::<StudentEnrolled, ErrorCode>(e) && post == pre,
        None => {
            &&& r == Ok::<StudentEnrolled, ErrorCode>(
                StudentEnrolled { enrollment: ctx.enrollment, student: ctx.student.key, course: ctx.course },
            )
            &&& post == pre.insert(
                ctx.course,
                Record::Course(with_one_more_enrolled(course_at(pre, ctx.course).unwrap())),
            ).insert(
                ctx.lms_account,
                Record::Lms(with_one_more_student(lms_at(pre, ctx.lms_account).unwrap())),
            ).insert(
                ctx.enrollment,
                Record::Enrollment(
                    Enrollment {
                        enrollment_id,
                        student: ctx.student.key,
                        course: ctx.course,
                        enrolled_at: now,
                        is_active: true,
                        progress: 0,
                        bump: nonce(derived_enrollment),
                    },
                ),
            )
        },
    }
}

/// Enrolls, given what the derivations of the root record, of the course and
/// of the enrollment gave.
pub fn apply_enroll_student(
    ledger: &mut Ledger,
    ctx: &EnrollStudent,
    enrollment_id: String,
    now: i64,
    derived_lms: Option<(Address, u8)>,
    derived_course: Option<(Address, u8)>,
    derived_enrollment: Option<(Address, u8)>,
) -> (r: Result<StudentEnrolled, ErrorCode>)
    requires
        old(ledger).wf(),
    ensures
        final(ledger).wf(),
        final(ledger).program() == old(ledger).program(),
        enroll_student_post(
            old(ledger)@,
            final(ledger)@,
            r,
            *ctx,
            enrollment_id,
            now,
            derived_view(derived_lms),
            derived_view(derived_course),
            derived_view(derived_enrollment),
        ),
{
    if !ctx.student.signed {
        return Err(ErrorCode::MissingSignature);
    }
    if !fits(&enrollment_id, MAX_ID_BYTES) {
        return Err(ErrorCode::FieldTooLong);
    }
    match load_lms(ledger, &ctx.lms_account) {
        None => {
            return Err(ErrorCode::NotFound);
        },
        Some(lms) => {
            if !check_confirms(&derived_lms, &ctx.lms_account, lms.bump) {
                return Err(ErrorCode::AddressMismatch);
            }
            match load_course(ledger, &ctx.course) {
                None => {
                    return Err(ErrorCode::NotFound);
                },
                Some(course) => {
                    if !check_confirms(&derived_course, &ctx.course, course.bump) {
                        return Err(ErrorCode::AddressMismatch);
                    }
                    if !check_names(&derived_enrollment, &ctx.enrollment) {
                        return Err(ErrorCode::AddressMismatch);
                    }
                    if ledger.exists_at(&ctx.enrollment) {
                        return Err(ErrorCode::AlreadyExists);
                    }
                    if course.current_students == u32::MAX || lms.total_students == u64::MAX {
                        return Err(ErrorCode::CounterOverflow);
                    }
                },
            }
        },
    }
    let bump: u8 = match derived_enrollment {
        Some((_, b)) => b,
        None => 0,
    };
    match ledger.get_mut(&ctx.course) {
        Some(Record::Course(course)) => {
            course.current_students = course.current_students + 1;
        },
        _ => {},
    }
    match ledger.get_mut(&ctx.lms_account) {
        Some(Record::Lms(lms)) => {
            lms.total_students = lms.total_students + 1;
        },
        _ => {},
    }
    ledger.put(
        ctx.enrollment,
        Record::Enrollment(
            Enrollment {
                enrollment_id,
                student: ctx.student.key,
                course: ctx.course,
                enrolled_at: now,
                is_active: true,
                progress: 0,
                bump,
            },
        ),
    );
    Ok(StudentEnrolled { enrollment: ctx.enrollment, student: ctx.student.key, course: ctx.course })
}

/// Enrolls the signing student in a course: creates the enrollment with no
/// progress, and counts the student in the course and in the root record.
/// The course's capacity and its active flag are kept as data and do not
/// gate enrollment. Refused if the student did not sign, the id is too long,
/// the root record or the course is missing or not at its derived address,
/// the supplied enrollment address is not the one derived from the id, a
/// record already exists there, or a counter is at its maximum.
pub fn enroll_student(ledger: &mut Ledger, ctx: &EnrollStudent, enrollment_id: String, now: i64) -> (r: Result<
    StudentEnrolled,
    ErrorCode,
>)
    requires
        old(ledger).wf(),
    ensures
        final(ledger).wf(),
        final(ledger).program() == old(ledger).program(),
        enroll_student_post(
            old(ledger)@,
            final(ledger)@,
            r,
            *ctx,
            enrollment_id,
            now,
            program_address(lms_seeds(), old(ledger).program()@),
            stored_course_address(old(ledger)@, ctx.course, old(ledger).program()),
            program_address(enrollment_seeds(enrollment_id@), old(ledger).program()@),
        ),
{
    let program = ledger.program_id();
    let derived_lms = derive_lms(&program);
    let derived_course = rederive_course(ledger, &ctx.course);
    let derived_enrollment = derive_enrollment(&enrollment_id, &program);
    apply_enroll_student(ledger, ctx, enrollment_id, now, derived_lms, derived_course, derived_enrollment)
}

/// The records and actors named by a request to issue a credential.
#[derive(Clone, Copy, Debug)]
pub struct IssueCertificate {
    pub certificate: Address,
    pub course: Address,
    pub student: Address,
    pub instructor: Signer,
}

/// Why a request to issue a credential is refused, if it is.
pub open spec fn issue_certificate_refusal(
    pre: Map<Address, Record>,
    ctx: IssueCertificate,
    certificate_id: Seq<char>,
    metadata_uri: Seq<char>,
    derived_course: Option<(Seq<u8>, u8)>,
    derived_certificate: Option<(Seq<u8>, u8)>,
) -> Option<ErrorCode> {
    if !ctx.instructor.signed {
        Some(ErrorCode::MissingSignature)
    } else if byte_len(certificate_id) > MAX_ID_BYTES || byte_len(metadata_uri) > MAX_TEXT_BYTES {
        Some(ErrorCode::FieldTooLong)
    } else if course_at(pre, ctx.course) is None {
        Some(ErrorCode::NotFound)
    } else if !confirms(derived_course, ctx.course, course_at(pre, ctx.course).unwrap().bump) {
        Some(ErrorCode::AddressMismatch)
    } else if course_at(pre, ctx.course).unwrap().instructor != ctx.instructor.key {
        Some(ErrorCode::Unauthorized)
    } else if !names(derived_certificate, ctx.certificate) {
        Some(ErrorCode::AddressMismatch)
    } else if pre.dom().contains(ctx.certificate) {
        Some(ErrorCode::AlreadyExists)
    } else {
        None
    }
}

/// What issuing a credential returns and leaves behind.
pub open spec fn issue_certificate_post(
    pre: Map<Address, Record>,
    post: Map<Address, Record>,
    r: Result<CertificateIssued, ErrorCode>,
    ctx: IssueCertificate,
    certificate_id: String,
    credential_type: CredentialType,
    metadata_uri: String,
    now: i64,
    derived_course: Option<(Seq<u8>, u8)>,
    derived_certificate: Option<(Seq<u8>, u8)>,
) -> bool {
    match issue_certificate_refusal(pre, ctx, certificate_id@, metadata_uri@, derived_course, derived_certificate) {
        Some(e) => r == Err::<CertificateIssued, ErrorCode>(e) && post == pre,
        None => {
            &&& r == Ok::<CertificateIssued, ErrorCode>(
                CertificateIssued {
                    certificate: ctx.certificate,
                    student: ctx.student,
                    course: ctx.course,
                    credential_type,
                },
            )
            &&& post == pre.insert(
                ctx.certificate,
                Record::Certificate(
                    Certificate {
                        certificate_id,
                        student: ctx.student,
                        course: ctx.course,
                        instructor: ctx.instructor.key,
                        credential_type,
                        metadata_uri,
                        issued_at: now,
                        is_verified: true,
                        bump: nonce(derived_certificate),
                    },
                ),
            )
        },
    }
}

/// Issues a credential, given what the derivations of the course and of the
/// certificate gave.
pub fn apply_issue_certificate(
    ledger: &mut Ledger,
    ctx: &IssueCertificate,
    certificate_id: String,
    credential_type: CredentialType,
    metadata_uri: String,
    now: i64,
    derived_course: Option<(Address, u8)>,
    derived_certificate: Option<(Address, u8)>,
) -> (r: Result<CertificateIssued, ErrorCode>)
    requires
        old(ledger).wf(),
    ensures
        final(ledger).wf(),
        final(ledger).program() == old(ledger).program(),
        issue_certificate_post(
            old(ledger)@,
            final(ledger)@,
            r,
            *ctx,
            certificate_id,
            credential_type,
            metadata_uri,
            now,
            derived_view(derived_course),
            derived_view(derived_certificate),
        ),
{
    if !ctx.instructor.signed {
        return Err(ErrorCode::MissingSignature);
    }
    if !fits(&certificate_id, MAX_ID_BYTES) || !fits(&metadata_uri, MAX_TEXT_BYTES) {
        return Err(ErrorCode::FieldTooLong);
    }
    match load_course(ledger, &ctx.course) {
        None => {
            return Err(ErrorCode::NotFound);
        },
        Some(course) => {
            if !check_confirms(&derived_course, &ctx.course, course.bump) {
                return Err(ErrorCode::AddressMismatch);
            }
            if !course.instructor.same(&ctx.instructor.key) {
                return Err(ErrorCode::Unauthorized);
            }
        },
    }
    if !check_names(&derived_certificate, &ctx.certificate) {
        return Err(ErrorCode::AddressMismatch);
    }
    if ledger.exists_at(&ctx.certificate) {
        return Err(ErrorCode::AlreadyExists);
    }
    let bump: u8 = match derived_certificate {
        Some((_, b)) => b,
        None => 0,
    };
    ledger.put(
        ctx.certificate,
        Record::Certificate(
            Certificate {
                certificate_id,
                student: ctx.student,
                course: ctx.course,
                instructor: ctx.instructor.key,
                credential_type,
                metadata_uri,
                issued_at: now,
                is_verified: true,
                bump,
            },
        ),
    );
    Ok(
        CertificateIssued {
            certificate: ctx.certificate,
            student: ctx.student,
            course: ctx.course,
            credential_type,
        },
    )
}

/// Issues a verified credential of the given kind to a student for a course.
/// Refused if the instructor did not sign, a text is too long, the course is
/// missing or not at its derived address, the signer is not the course's
/// instructor, the supplied certificate address is not the one derived from
/// the id, or a record already exists there.
pub fn issue_certificate(
    ledger: &mut Ledger,
    ctx: &IssueCertificate,
    certificate_id: String,
    credential_type: CredentialType,
    metadata_uri: String,
    now: i64,
) -> (r: Result<CertificateIssued, ErrorCode>)
    requires
        old(ledger).wf(),
    ensures
        final(ledger).wf(),
        final(ledger).program() == old(ledger).program(),
        issue_certificate_post(
            old(ledger)@,
            final(ledger)@,
            r,
            *ctx,
            certificate_id,
            credential_type,
            metadata_uri,
            now,
            stored_course_address(old(ledger)@, ctx.course, old(ledger).program()),
            program_address(certificate_seeds(certificate_id@), old(ledger).program()@),
        ),
{
    let program = ledger.program_id();
    let derived_course = rederive_course(ledger, &ctx.course);
    let derived_certificate = derive_certificate(&certificate_id, &program);
    apply_issue_certificate(
        ledger,
        ctx,
        certificate_id,
        credential_type,
        metadata_uri,
        now,
        derived_course,
        derived_certificate,
    )
}

/// The records and actors named by a request to reward an achievement.
#[derive(Clone, Copy, Debug)]
pub struct AwardTokens {
    pub achievement: Address,
    pub lms_account: Address,
    pub student: Address,
    /// The balance holder that pays the reward.
    pub reward_source: Address,
    pub student_token_account: Address,
    pub authority: Signer,
}

/// Why a request to reward an achievement is refused, if it is.
pub open spec fn award_tokens_refusal(
    pre: Map<Address, Record>,
    ctx: AwardTokens,
    derived_lms: Option<(Seq<u8>, u8)>,
    derived_achievement: Option<(Seq<u8>, u8)>,
) -> Option<ErrorCode> {
    if !ctx.authority.signed {
        Some(ErrorCode::MissingSignature)
    } else if lms_at(pre, ctx.lms_account) is None {
        Some(ErrorCode::NotFound)
    } else if !confirms(derived_lms, ctx.lms_account, lms_at(pre, ctx.lms_account).unwrap().bump) {
        Some(ErrorCode::AddressMismatch)
    } else if lms_at(pre, ctx.lms_account).unwrap().authority != ctx.authority.key {
        Some(ErrorCode::Unauthorized)
    } else if !names(derived_achievement, ctx.achievement) {
        Some(ErrorCode::AddressMismatch)
    } else if pre.dom().contains(ctx.achievement) {
        Some(ErrorCode::AlreadyExists)
    } else {
        None
    }
}

/// What rewarding an achievement returns and leaves behind.
pub open spec fn award_tokens_post(
    pre: Map<Address, Record>,
    post: Map<Address, Record>,
    r: Result<(TokensAwarded, Transfer), ErrorCode>,
    ctx: AwardTokens,
    amount: u64,
    achievement_type: AchievementType,
    now: i64,
    derived_lms: Option<(Seq<u8>, u8)>,
    derived_achievement: Option<(Seq<u8>, u8)>,
) -> bool {
    match award_tokens_refusal(pre, ctx, derived_lms, derived_achievement) {
        Some(e) => r == Err::<(TokensAwarded, Transfer), ErrorCode>(e) && post == pre,
        None => {
            &&& r == Ok::<(TokensAwarded, Transfer), ErrorCode>(
                (
                    TokensAwarded { student: ctx.student, amount, achievement_type },
                    Transfer {
                        from: ctx.reward_source,
                        to: ctx.student_token_account,
                        authority: ctx.authority.key,
                        amount,
                    },
                ),
            )
            &&& post == pre.insert(
                ctx.achievement,
                Record::Achievement(
                    Achievement {
                        student: ctx.student,
                        achievement_type,
                        amount,
                        awarded_at: now,
                        bump: nonce(derived_achievement),
                    },
                ),
            )
        },
    }
}

/// Rewards an achievement, given what the derivations of the root record
/// and of the achievement gave.
pub fn apply_award_tokens(
    ledger: &mut Ledger,
    ctx: &AwardTokens,
    amount: u64,
    achievement_type: AchievementType,
    now: i64,
    derived_lms: Option<(Address, u8)>,
    derived_achievement: Option<(Address, u8)>,
) -> (r: Result<(TokensAwarded, Transfer), ErrorCode>)
    requires
        old(ledger).wf(),
    ensures
        final(ledger).wf(),
        final(ledger).program() == old(ledger).program(),
        award_tokens_post(
            old(ledger)@,
            final(ledger)@,
            r,
            *ctx,
            amount,
            achievement_type,
            now,
            derived_view(derived_lms),
            derived_view(derived_achievement),
        ),
{
    if !ctx.authority.signed {
        return Err(ErrorCode::MissingSignature);
    }
    match load_lms(ledger, &ctx.lms_account) {
        None => {
            return Err(ErrorCode::NotFound);
        },
        Some(lms) => {
            if !check_confirms(&derived_lms, &ctx.lms_account, lms.bump) {
                return Err(ErrorCode::AddressMismatch);
            }
            if !lms.authority.same(&ctx.authority.key) {
                return Err(ErrorCode::Unauthorized);
            }
        },
    }
    if !check_names(&derived_achievement, &ctx.achievement) {
        return Err(ErrorCode::AddressMismatch);
    }
    if ledger.exists_at(&ctx.achievement) {
        return Err(ErrorCode::AlreadyExists);
    }
    let bump: u8 = match derived_achievement {
        Some((_, b)) => b,
        None => 0,
    };
    ledger.put(
        ctx.achievement,
        Record::Achievement(
            Achievement { student: ctx.student, achievement_type, amount, awarded_at: now, bump },
        ),
    );
    Ok(
        (
            TokensAwarded { student: ctx.student, amount, achievement_type },
            Transfer {
                from: ctx.reward_source,
                to: ctx.student_token_account,
                authority: ctx.authority.key,
                amount,
            },
        ),
    )
}

/// Records an achievement of the given kind for a student and asks for one
/// transfer of the reward. The record is made first; the transfer is for the
/// host to carry out, once. Refused, with no transfer asked for, if the
/// authority did not sign, the root record is missing or not at its derived
/// address, the signer is not the system's authority, the supplied address
/// is not the one derived from the student and the kind, or the student
/// already has an achievement of that kind.
pub fn award_tokens(
    ledger: &mut Ledger,
    ctx: &AwardTokens,
    amount: u64,
    achievement_type: AchievementType,
    now: i64,
) -> (r: Result<(TokensAwarded, Transfer), ErrorCode>)
    requires
        old(ledger).wf(),
    ensures
        final(ledger).wf(),
        final(ledger).program() == old(ledger).program(),
        award_tokens_post(
            old(ledger)@,
            final(ledger)@,
            r,
            *ctx,
            amount,
            achievement_type,
            now,
            program_address(lms_seeds(), old(ledger).program()@),
            program_address(achievement_seeds(ctx.student, achievement_type), old(ledger).program()@),
        ),
{
    let program = ledger.program_id();
    let derived_lms = derive_lms(&program);
    let derived_achievement = derive_achievement(&ctx.student, achievement_type, &program);
    apply_award_tokens(ledger, ctx, amount, achievement_type, now, derived_lms, derived_achievement)
}

/// Closes a reward once the token ledger has answered: the notification goes
/// out if the transfer went through, and the failure is passed on if not.
/// The achievement stays recorded either way, unless the host undoes the
/// whole request.
pub fn settle_award(event: TokensAwarded, transferred: bool) -> (r: Result<TokensAwarded, ErrorCode>)
    ensures
        transferred ==> r == Ok::<TokensAwarded, ErrorCode>(event),
        !transferred ==> r == Err::<TokensAwarded, ErrorCode>(ErrorCode::TransferFailed),
{
    if transferred {
        Ok(event)
    } else {
        Err(ErrorCode::TransferFailed)
    }
}

/// The records and actors named by a request to record progress.
#[derive(Clone, Copy, Debug)]
pub struct UpdateProgress {
    pub enrollment: Address,
    pub student: Signer,
}

/// Why a request to record progress is refused, if it is.
pub open spec fn update_progress_refusal(
    pre: Map<Address, Record>,
    ctx: UpdateProgress,
    progress_percentage: u8,
    derived: Option<(Seq<u8>, u8)>,
) -> Option<ErrorCode> {
    if !ctx.student.signed {
        Some(ErrorCode::MissingSignature)
    } else if enrollment_at(pre, ctx.enrollment) is None {
        Some(ErrorCode::NotFound)
    } else if !confirms(derived, ctx.enrollment, enrollment_at(pre, ctx.enrollment).unwrap().bump) {
        Some(ErrorCode::AddressMismatch)
    } else if enrollment_at(pre, ctx.enrollment).unwrap().student != ctx.student.key {
        Some(ErrorCode::Unauthorized)
    } else if progress_percentage > MAX_PROGRESS {
        Some(ErrorCode::InvalidProgress)
    } else {
        None
    }
}

/// The enrollment with its progress set.
pub open spec fn with_progress(enrollment: Enrollment, progress: u8) -> Enrollment {
    Enrollment { progress, ..enrollment }
}

/// What recording progress returns and leaves behind.
pub open spec fn update_progress_post(
    pre: Map<Address, Record>,
    post: Map<Address, Record>,
    r: Result<ProgressUpdated, ErrorCode>,
    ctx: UpdateProgress,
    progress_percentage: u8,
    derived: Option<(Seq<u8>, u8)>,
) -> bool {
    match update_progress_refusal(pre, ctx, progress_percentage, derived) {
        Some(e) => r == Err::<ProgressUpdated, ErrorCode>(e) && post == pre,
        None => {
            &&& r == Ok::<ProgressUpdated, ErrorCode>(
                ProgressUpdated {
                    enrollment: ctx.enrollment,
                    student: ctx.student.key,
                    progress: progress_percentage,
                },
            )
            &&& post == pre.insert(
                ctx.enrollment,
                Record::Enrollment(
                    with_progress(enrollment_at(pre, ctx.enrollment).unwrap(), progress_percentage),
                ),
            )
        },
    }
}

/// Records progress, given what the enrollment's derivation gave.
pub fn apply_update_progress(
    ledger: &mut Ledger,
    ctx: &UpdateProgress,
    progress_percentage: u8,
    derived: Option<(Address, u8)>,
) -> (r: Result<ProgressUpdated, ErrorCode>)
    requires
        old(ledger).wf(),
    ensures
        final(ledger).wf(),
        final(ledger).program() == old(ledger).program(),
        update_progress_post(old(ledger)@, final(ledger)@, r, *ctx, progress_percentage, derived_view(derived)),
{
    if !ctx.student.signed {
        return Err(ErrorCode::MissingSignature);
    }
    match load_enrollment(ledger, &ctx.enrollment) {
        None => {
            return Err(ErrorCode::NotFound);
        },
        Some(enrollment) => {
            if !check_confirms(&derived, &ctx.enrollment, enrollment.bump) {
                return Err(ErrorCode::AddressMismatch);
            }
            if !enrollment.student.same(&ctx.student.key) {
                return Err(ErrorCode::Unauthorized);
            }
        },
    }
    if progress_percentage > MAX_PROGRESS {
        return Err(ErrorCode::InvalidProgress);
    }
    match ledger.get_mut(&ctx.enrollment) {
        Some(Record::Enrollment(enrollment)) => {
            enrollment.progress = progress_percentage;
        },
        _ => {},
    }
    Ok(ProgressUpdated { enrollment: ctx.enrollment, student: ctx.student.key, progress: progress_percentage })
}

/// Sets the progress of an enrollment to a percentage from 0 to 100, on the
/// enrolled student's own request. Refused if the student did not sign, the
/// enrollment is missing or not at its derived address, the signer is not
/// the enrolled student, or the percentage is above 100.
pub fn update_progress(ledger: &mut Ledger, ctx: &UpdateProgress, progress_percentage: u8) -> (r: Result<
    ProgressUpdated,
    ErrorCode,
>)
    requires
        old(ledger).wf(),
    ensures
        final(ledger).wf(),
        final(ledger).program() == old(ledger).program(),
        update_progress_post(
            old(ledger)@,
            final(ledger)@,
            r,
            *ctx,
            progress_percentage,
            stored_enrollment_address(old(ledger)@, ctx.enrollment, old(ledger).program()),
        ),
{
    let derived = rederive_enrollment(ledger, &ctx.enrollment);
    apply_update_progress(ledger, ctx, progress_percentage, derived)
}

} // verus!
