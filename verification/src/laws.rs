//! What holds of the operations across calls and states.

use vstd::prelude::*;
use crate::types::{
    lemma_address_by_bytes, AchievementType, Address, CertificateIssued, Course, CourseCreated,
    CredentialType, Enrollment, ErrorClass, ErrorCode, LmsAccount, LmsInitialized, ProgressUpdated,
    Record, StudentEnrolled, TokensAwarded, Transfer, MAX_ID_BYTES, MAX_PROGRESS, MAX_TEXT_BYTES,
};
use crate::derivation::{
    achievement_seeds, certificate_seeds, course_seeds, enrollment_seeds, lms_seeds, program_address,
};
use crate::guard::{byte_len, confirms, course_at, enrollment_at, lms_at, names};
use crate::layout::{law_reserved_space_suffices, reserved_len, stored_len, texts_in_width};
use crate::operations::{
    award_tokens_post, create_course_post, enroll_student_post, initialize_lms_post,
    issue_certificate_post, stored_course_address, stored_enrollment_address, update_progress_post,
    AwardTokens, CreateCourse, EnrollStudent, InitializeLms, IssueCertificate, UpdateProgress,
};

verus! {

/// Whether the enrolled student's own, signed request reaches the range
/// check: the enrollment exists at its derived address and names the signer.
pub open spec fn student_admitted(
    pre: Map<Address, Record>,
    ctx: UpdateProgress,
    derived: Option<(Seq<u8>, u8)>,
) -> bool {
    &&& ctx.student.signed
    &&& enrollment_at(pre, ctx.enrollment) is Some
    &&& confirms(derived, ctx.enrollment, enrollment_at(pre, ctx.enrollment).unwrap().bump)
    &&& enrollment_at(pre, ctx.enrollment).unwrap().student == ctx.student.key
}

/// A percentage from 0 to 100 sent by the enrolled student is accepted and
/// becomes the stored progress, every other field and record as before; a
/// percentage above 100 is refused as invalid and nothing changes.
pub proof fn law_progress_range(
    pre: Map<Address, Record>,
    post: Map<Address, Record>,
    r: Result<ProgressUpdated, ErrorCode>,
    ctx: UpdateProgress,
    progress_percentage: u8,
    derived: Option<(Seq<u8>, u8)>,
)
    requires
        update_progress_post(pre, post, r, ctx, progress_percentage, derived),
        student_admitted(pre, ctx, derived),
    ensures
        progress_percentage <= MAX_PROGRESS ==> {
            &&& r is Ok
            &&& enrollment_at(post, ctx.enrollment) is Some
            &&& enrollment_at(post, ctx.enrollment).unwrap().progress == progress_percentage
            &&& forall|a: Address| a != ctx.enrollment ==> post.dom().contains(a) == pre.dom().contains(a) && (
            pre.dom().contains(a) ==> post[a] == pre[a])
        },
        progress_percentage > MAX_PROGRESS ==> r == Err::<ProgressUpdated, ErrorCode>(ErrorCode::InvalidProgress)
            && ErrorCode::InvalidProgress.class_of() == ErrorClass::Validation && post == pre,
{
}

/// A request to record progress on an enrollment that names another student
/// than the caller is refused for want of authority, whatever the
/// percentage, and nothing changes.
pub proof fn law_progress_only_by_student(
    pre: Map<Address, Record>,
    post: Map<Address, Record>,
    r: Result<ProgressUpdated, ErrorCode>,
    ctx: UpdateProgress,
    progress_percentage: u8,
    derived: Option<(Seq<u8>, u8)>,
)
    requires
        update_progress_post(pre, post, r, ctx, progress_percentage, derived),
        enrollment_at(pre, ctx.enrollment) is Some,
        confirms(derived, ctx.enrollment, enrollment_at(pre, ctx.enrollment).unwrap().bump),
        enrollment_at(pre, ctx.enrollment).unwrap().student != ctx.student.key,
    ensures
        ctx.student.signed ==> r == Err::<ProgressUpdated, ErrorCode>(ErrorCode::Unauthorized),
        !ctx.student.signed ==> r == Err::<ProgressUpdated, ErrorCode>(ErrorCode::MissingSignature),
        r matches Err(e) && e.class_of() == ErrorClass::Authorization,
        post == pre,
        enrollment_at(post, ctx.enrollment) == enrollment_at(pre, ctx.enrollment),
{
}

/// What holds of a stored record: its texts are within the widths of their
/// fields, and an enrollment's progress is at most 100.
pub open spec fn record_sound(record: Record) -> bool {
    &&& texts_in_width(record)
    &&& record matches Record::Enrollment(e) ==> e.progress <= MAX_PROGRESS
}

/// Every stored record is sound.
pub open spec fn sound(records: Map<Address, Record>) -> bool {
    forall|a: Address| #[trigger] records.dom().contains(a) ==> record_sound(records[a])
}

/// An empty ledger is sound.
pub proof fn law_empty_is_sound()
    ensures
        sound(Map::<Address, Record>::empty()),
{
}

/// Every record of a sound ledger fits the space reserved for its type.
pub proof fn law_sound_records_fit(records: Map<Address, Record>, a: Address)
    requires
        sound(records),
        records.dom().contains(a),
    ensures
        stored_len(records[a]) <= reserved_len(records[a]),
{
    law_reserved_space_suffices(records[a]);
}

/// Setting the system up keeps the ledger sound.
pub proof fn law_initialize_keeps_sound(
    pre: Map<Address, Record>,
    post: Map<Address, Record>,
    r: Result<LmsInitialized, ErrorCode>,
    ctx: InitializeLms,
    name: String,
    description: String,
    derived: Option<(Seq<u8>, u8)>,
)
    requires
        initialize_lms_post(pre, post, r, ctx, name, description, derived),
        sound(pre),
    ensures
        sound(post),
{
    assert forall|a: Address| #[trigger] post.dom().contains(a) implies record_sound(post[a]) by {
        if a != ctx.lms_account {
            assert(pre.dom().contains(a));
        }
    }
}

/// Creating a course keeps the ledger sound.
pub proof fn law_create_course_keeps_sound(
    pre: Map<Address, Record>,
    post: Map<Address, Record>,
    r: Result<CourseCreated, ErrorCode>,
    ctx: CreateCourse,
    course_id: String,
    title: String,
    description: String,
    price: u64,
    max_students: u32,
    now: i64,
    derived_lms: Option<(Seq<u8>, u8)>,
    derived_course: Option<(Seq<u8>, u8)>,
)
    requires
        create_course_post(
            pre,
            post,
            r,
            ctx,
            course_id,
            title,
            description,
            price,
            max_students,
            now,
            derived_lms,
            derived_course,
        ),
        sound(pre),
    ensures
        sound(post),
{
    assert forall|a: Address| #[trigger] post.dom().contains(a) implies record_sound(post[a]) by {
        if a != ctx.course {
            assert(pre.dom().contains(a));
        }
    }
}

/// Enrolling keeps the ledger sound: the new enrollment starts at 0.
pub proof fn law_enroll_keeps_sound(
    pre: Map<Address, Record>,
    post: Map<Address, Record>,
    r: Result<StudentEnrolled, ErrorCode>,
    ctx: EnrollStudent,
    enrollment_id: String,
    now: i64,
    derived_lms: Option<(Seq<u8>, u8)>,
    derived_course: Option<(Seq<u8>, u8)>,
    derived_enrollment: Option<(Seq<u8>, u8)>,
)
    requires
        enroll_student_post(pre, post, r, ctx, enrollment_id, now, derived_lms, derived_course, derived_enrollment),
        sound(pre),
    ensures
        sound(post),
{
    assert forall|a: Address| #[trigger] post.dom().contains(a) implies record_sound(post[a]) by {
        if a != ctx.enrollment {
            assert(pre.dom().contains(a));
        }
    }
}

/// Issuing a credential keeps the ledger sound.
pub proof fn law_issue_keeps_sound(
    pre: Map<Address, Record>,
    post: Map<Address, Record>,
    r: Result<CertificateIssued, ErrorCode>,
    ctx: IssueCertificate,
    certificate_id: String,
    credential_type: CredentialType,
    metadata_uri: String,
    now: i64,
    derived_course: Option<(Seq<u8>, u8)>,
    derived_certificate: Option<(Seq<u8>, u8)>,
)
    requires
        issue_certificate_post(
            pre,
            post,
            r,
            ctx,
            certificate_id,
            credential_type,
            metadata_uri,
            now,
            derived_course,
            derived_certificate,
        ),
        sound(pre),
    ensures
        sound(post),
{
    assert forall|a: Address| #[trigger] post.dom().contains(a) implies record_sound(post[a]) by {
        if a != ctx.certificate {
            assert(pre.dom().contains(a));
        }
    }
}

/// Rewarding an achievement keeps the ledger sound.
pub proof fn law_award_keeps_sound(
    pre: Map<Address, Record>,
    post: Map<Address, Record>,
    r: Result<(TokensAwarded, Transfer), ErrorCode>,
    ctx: AwardTokens,
    amount: u64,
    achievement_type: AchievementType,
    now: i64,
    derived_lms: Option<(Seq<u8>, u8)>,
    derived_achievement: Option<(Seq<u8>, u8)>,
)
    requires
        award_tokens_post(pre, post, r, ctx, amount, achievement_type, now, derived_lms, derived_achievement),
        sound(pre),
    ensures
        sound(post),
{
    assert forall|a: Address| #[trigger] post.dom().contains(a) implies record_sound(post[a]) by {
        if a != ctx.achievement {
            assert(pre.dom().contains(a));
        }
    }
}

/// Recording progress keeps the ledger sound: every stored progress stays
/// within 0 to 100.
pub proof fn law_update_keeps_sound(
    pre: Map<Address, Record>,
    post: Map<Address, Record>,
    r: Result<ProgressUpdated, ErrorCode>,
    ctx: UpdateProgress,
    progress_percentage: u8,
    derived: Option<(Seq<u8>, u8)>,
)
    requires
        update_progress_post(pre, post, r, ctx, progress_percentage, derived),
        sound(pre),
    ensures
        sound(post),
{
    assert forall|a: Address| #[trigger] post.dom().contains(a) implies record_sound(post[a]) by {
        assert(pre.dom().contains(a));
    }
}

/// The derivation of a record's address from the natural key that the
/// record itself keeps.
pub open spec fn own_derivation(record: Record, program: Address) -> Option<(Seq<u8>, u8)> {
    match record {
        Record::Lms(_) => program_address(lms_seeds(), program@),
        Record::Course(c) => program_address(course_seeds(c.course_id@), program@),
        Record::Enrollment(e) => program_address(enrollment_seeds(e.enrollment_id@), program@),
        Record::Certificate(c) => program_address(certificate_seeds(c.certificate_id@), program@),
        Record::Achievement(a) => program_address(achievement_seeds(a.student, a.achievement_type), program@),
    }
}

/// The nonce that a record keeps.
pub open spec fn kept_nonce(record: Record) -> u8 {
    match record {
        Record::Lms(l) => l.bump,
        Record::Course(c) => c.bump,
        Record::Enrollment(e) => e.bump,
        Record::Certificate(c) => c.bump,
        Record::Achievement(a) => a.bump,
    }
}

/// Every record lives at the address derived from its own natural key, and
/// keeps the nonce of that derivation.
pub open spec fn anchored(records: Map<Address, Record>, program: Address) -> bool {
    forall|a: Address| #[trigger]
        records.dom().contains(a) ==> confirms(own_derivation(records[a], program), a, kept_nonce(records[a]))
}

/// Setting the system up puts the root record at its derived address.
pub proof fn law_initialize_keeps_anchored(
    pre: Map<Address, Record>,
    post: Map<Address, Record>,
    r: Result<LmsInitialized, ErrorCode>,
    ctx: InitializeLms,
    name: String,
    description: String,
    program: Address,
)
    requires
        initialize_lms_post(pre, post, r, ctx, name, description, program_address(lms_seeds(), program@)),
        anchored(pre, program),
    ensures
        anchored(post, program),
{
    assert forall|a: Address| #[trigger] post.dom().contains(a) implies confirms(
        own_derivation(post[a], program),
        a,
        kept_nonce(post[a]),
    ) by {
        if a != ctx.lms_account {
            assert(pre.dom().contains(a));
        }
    }
}

/// Creating a course puts it at the address derived from its id.
pub proof fn law_create_course_keeps_anchored(
    pre: Map<Address, Record>,
    post: Map<Address, Record>,
    r: Result<CourseCreated, ErrorCode>,
    ctx: CreateCourse,
    course_id: String,
    title: String,
    description: String,
    price: u64,
    max_students: u32,
    now: i64,
    program: Address,
)
    requires
        create_course_post(
            pre,
            post,
            r,
            ctx,
            course_id,
            title,
            description,
            price,
            max_students,
            now,
            program_address(lms_seeds(), program@),
            program_address(course_seeds(course_id@), program@),
        ),
        anchored(pre, program),
    ensures
        anchored(post, program),
{
    assert forall|a: Address| #[trigger] post.dom().contains(a) implies confirms(
        own_derivation(post[a], program),
        a,
        kept_nonce(post[a]),
    ) by {
        if a != ctx.course {
            assert(pre.dom().contains(a));
        }
    }
}

/// Enrolling puts the enrollment at the address derived from its id.
pub proof fn law_enroll_keeps_anchored(
    pre: Map<Address, Record>,
    post: Map<Address, Record>,
    r: Result<StudentEnrolled, ErrorCode>,
    ctx: EnrollStudent,
    enrollment_id: String,
    now: i64,
    program: Address,
)
    requires
        enroll_student_post(
            pre,
            post,
            r,
            ctx,
            enrollment_id,
            now,
            program_address(lms_seeds(), program@),
            stored_course_address(pre, ctx.course, program),
            program_address(enrollment_seeds(enrollment_id@), program@),
        ),
        anchored(pre, program),
    ensures
        anchored(post, program),
{
    assert forall|a: Address| #[trigger] post.dom().contains(a) implies confirms(
        own_derivation(post[a], program),
        a,
        kept_nonce(post[a]),
    ) by {
        if a != ctx.enrollment {
            assert(pre.dom().contains(a));
        }
    }
}

/// Issuing a credential puts it at the address derived from its id.
pub proof fn law_issue_keeps_anchored(
    pre: Map<Address, Record>,
    post: Map<Address, Record>,
    r: Result<CertificateIssued, ErrorCode>,
    ctx: IssueCertificate,
    certificate_id: String,
    credential_type: CredentialType,
    metadata_uri: String,
    now: i64,
    program: Address,
)
    requires
        issue_certificate_post(
            pre,
            post,
            r,
            ctx,
            certificate_id,
            credential_type,
            metadata_uri,
            now,
            stored_course_address(pre, ctx.course, program),
            program_address(certificate_seeds(certificate_id@), program@),
        ),
        anchored(pre, program),
    ensures
        anchored(post, program),
{
    assert forall|a: Address| #[trigger] post.dom().contains(a) implies confirms(
        own_derivation(post[a], program),
        a,
        kept_nonce(post[a]),
    ) by {
        if a != ctx.certificate {
            assert(pre.dom().contains(a));
        }
    }
}

/// Rewarding an achievement puts it at the address derived from the student
/// and the kind.
pub proof fn law_award_keeps_anchored(
    pre: Map<Address, Record>,
    post: Map<Address, Record>,
    r: Result<(TokensAwarded, Transfer), ErrorCode>,
    ctx: AwardTokens,
    amount: u64,
    achievement_type: AchievementType,
    now: i64,
    program: Address,
)
    requires
        award_tokens_post(
            pre,
            post,
            r,
            ctx,
            amount,
            achievement_type,
            now,
            program_address(lms_seeds(), program@),
            program_address(achievement_seeds(ctx.student, achievement_type), program@),
        ),
        anchored(pre, program),
    ensures
        anchored(post, program),
{
    assert forall|a: Address| #[trigger] post.dom().contains(a) implies confirms(
        own_derivation(post[a], program),
        a,
        kept_nonce(post[a]),
    ) by {
        if a != ctx.achievement {
            assert(pre.dom().contains(a));
        }
    }
}

/// Recording progress leaves every record at its derived address.
pub proof fn law_update_keeps_anchored(
    pre: Map<Address, Record>,
    post: Map<Address, Record>,
    r: Result<ProgressUpdated, ErrorCode>,
    ctx: UpdateProgress,
    progress_percentage: u8,
    program: Address,
)
    requires
        update_progress_post(
            pre,
            post,
            r,
            ctx,
            progress_percentage,
            stored_enrollment_address(pre, ctx.enrollment, program),
        ),
        anchored(pre, program),
    ensures
        anchored(post, program),
{
    assert forall|a: Address| #[trigger] post.dom().contains(a) implies confirms(
        own_derivation(post[a], program),
        a,
        kept_nonce(post[a]),
    ) by {
        assert(pre.dom().contains(a));
    }
}

/// In a ledger where every record is at its derived address, the guard's
/// derivation check passes for the root record, for every course and for
/// every enrollment, at the address where it is stored.
pub proof fn law_anchored_records_are_confirmed(pre: Map<Address, Record>, a: Address, program: Address)
    requires
        anchored(pre, program),
    ensures
        lms_at(pre, a) is Some ==> confirms(program_address(lms_seeds(), program@), a, lms_at(pre, a).unwrap().bump),
        course_at(pre, a) is Some ==> confirms(
            stored_course_address(pre, a, program),
            a,
            course_at(pre, a).unwrap().bump,
        ),
        enrollment_at(pre, a) is Some ==> confirms(
            stored_enrollment_address(pre, a, program),
            a,
            enrollment_at(pre, a).unwrap().bump,
        ),
{
    if pre.dom().contains(a) {
        assert(confirms(own_derivation(pre[a], program), a, kept_nonce(pre[a])));
    }
}

/// In a ledger where every record is at its derived address, the student
/// named by an enrollment can always record a percentage from 0 to 100 with
/// a signed request.
pub proof fn law_enrolled_student_is_admitted(
    pre: Map<Address, Record>,
    ctx: UpdateProgress,
    program: Address,
)
    requires
        anchored(pre, program),
        ctx.student.signed,
        enrollment_at(pre, ctx.enrollment) is Some,
        enrollment_at(pre, ctx.enrollment).unwrap().student == ctx.student.key,
    ensures
        student_admitted(pre, ctx, stored_enrollment_address(pre, ctx.enrollment, program)),
{
    law_anchored_records_are_confirmed(pre, ctx.enrollment, program);
}

/// How a stored record may differ from what it was: the root record in its
/// counters of courses and students, which never fall; a course in its count
/// of students, which never falls; an enrollment in its progress; a
/// certificate and an achievement not at all.
pub open spec fn evolves(before: Record, after: Record) -> bool {
    match (before, after) {
        (Record::Lms(a), Record::Lms(b)) => {
            &&& b == LmsAccount { total_courses: b.total_courses, total_students: b.total_students, ..a }
            &&& b.total_courses >= a.total_courses
            &&& b.total_students >= a.total_students
        },
        (Record::Course(a), Record::Course(b)) => {
            &&& b == Course { current_students: b.current_students, ..a }
            &&& b.current_students >= a.current_students
        },
        (Record::Enrollment(a), Record::Enrollment(b)) => b == Enrollment { progress: b.progress, ..a },
        (Record::Certificate(a), Record::Certificate(b)) => a == b,
        (Record::Achievement(a), Record::Achievement(b)) => a == b,
        _ => false,
    }
}

/// No record was deleted or moved, and each changed only as its type allows.
pub open spec fn history_kept(pre: Map<Address, Record>, post: Map<Address, Record>) -> bool {
    forall|a: Address| #[trigger] pre.dom().contains(a) ==> post.dom().contains(a) && evolves(pre[a], post[a])
}

/// Setting the system up deletes nothing and changes no record that was
/// there.
pub proof fn law_initialize_keeps_history(
    pre: Map<Address, Record>,
    post: Map<Address, Record>,
    r: Result<LmsInitialized, ErrorCode>,
    ctx: InitializeLms,
    name: String,
    description: String,
    derived: Option<(Seq<u8>, u8)>,
)
    requires
        initialize_lms_post(pre, post, r, ctx, name, description, derived),
    ensures
        history_kept(pre, post),
{
}

/// Creating a course deletes nothing and changes only the root record's
/// count of courses.
pub proof fn law_create_course_keeps_history(
    pre: Map<Address, Record>,
    post: Map<Address, Record>,
    r: Result<CourseCreated, ErrorCode>,
    ctx: CreateCourse,
    course_id: String,
    title: String,
    description: String,
    price: u64,
    max_students: u32,
    now: i64,
    derived_lms: Option<(Seq<u8>, u8)>,
    derived_course: Option<(Seq<u8>, u8)>,
)
    requires
        create_course_post(
            pre,
            post,
            r,
            ctx,
            course_id,
            title,
            description,
            price,
            max_students,
            now,
            derived_lms,
            derived_course,
        ),
    ensures
        history_kept(pre, post),
{
}

/// Enrolling deletes nothing and changes only the counts of students in the
/// course and in the root record.
pub proof fn law_enroll_keeps_history(
    pre: Map<Address, Record>,
    post: Map<Address, Record>,
    r: Result<StudentEnrolled, ErrorCode>,
    ctx: EnrollStudent,
    enrollment_id: String,
    now: i64,
    derived_lms: Option<(Seq<u8>, u8)>,
    derived_course: Option<(Seq<u8>, u8)>,
    derived_enrollment: Option<(Seq<u8>, u8)>,
)
    requires
        enroll_student_post(pre, post, r, ctx, enrollment_id, now, derived_lms, derived_course, derived_enrollment),
    ensures
        history_kept(pre, post),
{
}

/// Issuing a credential deletes nothing and changes no record that was
/// there: a certificate, once issued, stays as it is.
pub proof fn law_issue_keeps_history(
    pre: Map<Address, Record>,
    post: Map<Address, Record>,
    r: Result<CertificateIssued, ErrorCode>,
    ctx: IssueCertificate,
    certificate_id: String,
    credential_type: CredentialType,
    metadata_uri: String,
    now: i64,
    derived_course: Option<(Seq<u8>, u8)>,
    derived_certificate: Option<(Seq<u8>, u8)>,
)
    requires
        issue_certificate_post(
            pre,
            post,
            r,
            ctx,
            certificate_id,
            credential_type,
            metadata_uri,
            now,
            derived_course,
            derived_certificate,
        ),
    ensures
        history_kept(pre, post),
{
}

/// Rewarding an achievement deletes nothing and changes no record that was
/// there.
pub proof fn law_award_keeps_history(
    pre: Map<Address, Record>,
    post: Map<Address, Record>,
    r: Result<(TokensAwarded, Transfer), ErrorCode>,
    ctx: AwardTokens,
    amount: u64,
    achievement_type: AchievementType,
    now: i64,
    derived_lms: Option<(Seq<u8>, u8)>,
    derived_achievement: Option<(Seq<u8>, u8)>,
)
    requires
        award_tokens_post(pre, post, r, ctx, amount, achievement_type, now, derived_lms, derived_achievement),
    ensures
        history_kept(pre, post),
{
}

/// Recording progress deletes nothing and changes only the progress of the
/// one enrollment; the student it names stays the same.
pub proof fn law_update_keeps_history(
    pre: Map<Address, Record>,
    post: Map<Address, Record>,
    r: Result<ProgressUpdated, ErrorCode>,
    ctx: UpdateProgress,
    progress_percentage: u8,
    derived: Option<(Seq<u8>, u8)>,
)
    requires
        update_progress_post(pre, post, r, ctx, progress_percentage, derived),
    ensures
        history_kept(pre, post),
{
}

/// A second request to enroll under the id of an enrollment that was just
/// made is refused, and nothing changes.
pub proof fn law_enrollment_id_unique(
    pre: Map<Address, Record>,
    mid: Map<Address, Record>,
    post: Map<Address, Record>,
    r1: Result<StudentEnrolled, ErrorCode>,
    r2: Result<StudentEnrolled, ErrorCode>,
    ctx1: EnrollStudent,
    ctx2: EnrollStudent,
    enrollment_id: String,
    second_id: String,
    now1: i64,
    now2: i64,
    derived_lms: Option<(Seq<u8>, u8)>,
    derived_course1: Option<(Seq<u8>, u8)>,
    derived_course2: Option<(Seq<u8>, u8)>,
    derived_enrollment: Option<(Seq<u8>, u8)>,
)
    requires
        second_id@ == enrollment_id@,
        enroll_student_post(pre, mid, r1, ctx1, enrollment_id, now1, derived_lms, derived_course1, derived_enrollment),
        enroll_student_post(mid, post, r2, ctx2, second_id, now2, derived_lms, derived_course2, derived_enrollment),
        r1 is Ok,
    ensures
        r2 is Err,
        post == mid,
        ctx2 == ctx1 && derived_course2 == derived_course1 ==> r2 == Err::<StudentEnrolled, ErrorCode>(
            ErrorCode::AlreadyExists,
        ),
{
    lemma_address_by_bytes(ctx1.enrollment, ctx2.enrollment);
    assert(mid.dom().contains(ctx1.enrollment));
    assert(ctx1.enrollment != ctx1.lms_account);
    assert(ctx1.enrollment != ctx1.course);
    assert(ctx1.course != ctx1.lms_account);
}

/// A second request to issue a credential under the id of one that was just
/// issued is refused, and nothing changes.
pub proof fn law_certificate_id_unique(
    pre: Map<Address, Record>,
    mid: Map<Address, Record>,
    post: Map<Address, Record>,
    r1: Result<CertificateIssued, ErrorCode>,
    r2: Result<CertificateIssued, ErrorCode>,
    ctx1: IssueCertificate,
    ctx2: IssueCertificate,
    certificate_id: String,
    second_id: String,
    credential_type1: CredentialType,
    credential_type2: CredentialType,
    metadata_uri1: String,
    metadata_uri2: String,
    now1: i64,
    now2: i64,
    derived_course1: Option<(Seq<u8>, u8)>,
    derived_course2: Option<(Seq<u8>, u8)>,
    derived_certificate: Option<(Seq<u8>, u8)>,
)
    requires
        second_id@ == certificate_id@,
        issue_certificate_post(
            pre,
            mid,
            r1,
            ctx1,
            certificate_id,
            credential_type1,
            metadata_uri1,
            now1,
            derived_course1,
            derived_certificate,
        ),
        issue_certificate_post(
            mid,
            post,
            r2,
            ctx2,
            second_id,
            credential_type2,
            metadata_uri2,
            now2,
            derived_course2,
            derived_certificate,
        ),
        r1 is Ok,
    ensures
        r2 is Err,
        post == mid,
        mid.dom().contains(ctx1.certificate),
        mid[ctx1.certificate] is Certificate,
        mid[ctx1.certificate]->Certificate_0.is_verified,
        mid[ctx1.certificate]->Certificate_0.credential_type == credential_type1,
{
    lemma_address_by_bytes(ctx1.certificate, ctx2.certificate);
    assert(mid.dom().contains(ctx1.certificate));
}

/// The number of courses that the root record at `lms` counts.
pub open spec fn total_courses(records: Map<Address, Record>, lms: Address) -> int {
    match lms_at(records, lms) {
        Some(l) => l.total_courses as int,
        None => 0,
    }
}

/// The number of students that the root record at `lms` counts.
pub open spec fn total_students(records: Map<Address, Record>, lms: Address) -> int {
    match lms_at(records, lms) {
        Some(l) => l.total_students as int,
        None => 0,
    }
}

/// The number of students in the course at `course`.
pub open spec fn current_students(records: Map<Address, Record>, course: Address) -> int {
    match course_at(records, course) {
        Some(c) => c.current_students as int,
        None => 0,
    }
}

/// The addresses at which a course is stored.
pub open spec fn course_addresses(records: Map<Address, Record>) -> Set<Address> {
    records.dom().filter(|a: Address| records[a] is Course)
}

/// The number of stored courses.
pub open spec fn course_count(records: Map<Address, Record>) -> nat {
    course_addresses(records).len()
}

/// The root record at `lms` counts exactly the stored courses; where there
/// is no root record, there is no course.
pub open spec fn courses_tallied(records: Map<Address, Record>, lms: Address) -> bool {
    &&& records.dom().finite()
    &&& match lms_at(records, lms) {
        Some(l) => l.total_courses == course_count(records),
        None => course_count(records) == 0,
    }
}

proof fn lemma_insert_count(pre: Map<Address, Record>, k: Address, v: Record)
    requires
        pre.dom().finite(),
    ensures
        pre.insert(k, v).dom().finite(),
        course_count(pre.insert(k, v)) == course_count(pre) + (if v is Course {
            1int
        } else {
            0int
        }) - (if pre.dom().contains(k) && pre[k] is Course {
            1int
        } else {
            0int
        }),
{
    let before = course_addresses(pre);
    let after = course_addresses(pre.insert(k, v));
    assert(pre.insert(k, v).dom() =~= pre.dom().insert(k));
    if v is Course {
        assert(after =~= before.insert(k));
    } else {
        assert(after =~= before.remove(k));
    }
}

/// An empty ledger counts its courses exactly: there is none.
pub proof fn law_empty_is_tallied(lms: Address)
    ensures
        courses_tallied(Map::<Address, Record>::empty(), lms),
        course_count(Map::<Address, Record>::empty()) == 0,
{
    assert(course_addresses(Map::<Address, Record>::empty()) =~= Set::<Address>::empty());
}

/// Setting the system up adds no course and keeps the count exact.
pub proof fn law_initialize_keeps_tally(
    pre: Map<Address, Record>,
    post: Map<Address, Record>,
    r: Result<LmsInitialized, ErrorCode>,
    ctx: InitializeLms,
    name: String,
    description: String,
    derived_lms: Option<(Seq<u8>, u8)>,
    lms: Address,
)
    requires
        initialize_lms_post(pre, post, r, ctx, name, description, derived_lms),
        names(derived_lms, lms),
        courses_tallied(pre, lms),
    ensures
        courses_tallied(post, lms),
        course_count(post) == course_count(pre),
        tallied_step(pre, post, false, lms),
{
    if r is Ok {
        lemma_address_by_bytes(ctx.lms_account, lms);
        lemma_insert_count(pre, ctx.lms_account, post[ctx.lms_account]);
    }
}

/// Creating a course adds exactly one stored course and keeps the root
/// record's count equal to the number of stored courses; a refused request
/// adds none.
pub proof fn law_create_course_keeps_tally(
    pre: Map<Address, Record>,
    post: Map<Address, Record>,
    r: Result<CourseCreated, ErrorCode>,
    ctx: CreateCourse,
    course_id: String,
    title: String,
    description: String,
    price: u64,
    max_students: u32,
    now: i64,
    derived_lms: Option<(Seq<u8>, u8)>,
    derived_course: Option<(Seq<u8>, u8)>,
    lms: Address,
)
    requires
        create_course_post(
            pre,
            post,
            r,
            ctx,
            course_id,
            title,
            description,
            price,
            max_students,
            now,
            derived_lms,
            derived_course,
        ),
        names(derived_lms, lms),
        courses_tallied(pre, lms),
    ensures
        courses_tallied(post, lms),
        r is Ok ==> course_count(post) == course_count(pre) + 1 && total_courses(post, lms) == course_count(post),
        r is Err ==> course_count(post) == course_count(pre),
        tallied_step(pre, post, r is Ok, lms),
{
    if r is Ok {
        lemma_address_by_bytes(ctx.lms_account, lms);
        let mid = pre.insert(ctx.lms_account, post[ctx.lms_account]);
        lemma_insert_count(pre, ctx.lms_account, post[ctx.lms_account]);
        lemma_insert_count(mid, ctx.course, post[ctx.course]);
        assert(ctx.course != ctx.lms_account);
        assert(post == mid.insert(ctx.course, post[ctx.course]));
    }
}

/// Enrolling adds no course and keeps the count exact.
pub proof fn law_enroll_keeps_tally(
    pre: Map<Address, Record>,
    post: Map<Address, Record>,
    r: Result<StudentEnrolled, ErrorCode>,
    ctx: EnrollStudent,
    enrollment_id: String,
    now: i64,
    derived_lms: Option<(Seq<u8>, u8)>,
    derived_course: Option<(Seq<u8>, u8)>,
    derived_enrollment: Option<(Seq<u8>, u8)>,
    lms: Address,
)
    requires
        enroll_student_post(pre, post, r, ctx, enrollment_id, now, derived_lms, derived_course, derived_enrollment),
        names(derived_lms, lms),
        courses_tallied(pre, lms),
    ensures
        courses_tallied(post, lms),
        course_count(post) == course_count(pre),
        tallied_step(pre, post, false, lms),
{
    if r is Ok {
        lemma_address_by_bytes(ctx.lms_account, lms);
        assert(ctx.course != ctx.lms_account);
        assert(ctx.enrollment != ctx.course);
        assert(ctx.enrollment != ctx.lms_account);
        let one = pre.insert(ctx.course, post[ctx.course]);
        let two = one.insert(ctx.lms_account, post[ctx.lms_account]);
        lemma_insert_count(pre, ctx.course, post[ctx.course]);
        lemma_insert_count(one, ctx.lms_account, post[ctx.lms_account]);
        lemma_insert_count(two, ctx.enrollment, post[ctx.enrollment]);
        assert(post == two.insert(ctx.enrollment, post[ctx.enrollment]));
    }
}

/// Issuing a credential adds no course and keeps the count exact.
pub proof fn law_issue_keeps_tally(
    pre: Map<Address, Record>,
    post: Map<Address, Record>,
    r: Result<CertificateIssued, ErrorCode>,
    ctx: IssueCertificate,
    certificate_id: String,
    credential_type: CredentialType,
    metadata_uri: String,
    now: i64,
    derived_course: Option<(Seq<u8>, u8)>,
    derived_certificate: Option<(Seq<u8>, u8)>,
    lms: Address,
)
    requires
        issue_certificate_post(
            pre,
            post,
            r,
            ctx,
            certificate_id,
            credential_type,
            metadata_uri,
            now,
            derived_course,
            derived_certificate,
        ),
        courses_tallied(pre, lms),
    ensures
        courses_tallied(post, lms),
        course_count(post) == course_count(pre),
        tallied_step(pre, post, false, lms),
{
    if r is Ok {
        lemma_insert_count(pre, ctx.certificate, post[ctx.certificate]);
    }
}

/// Rewarding an achievement adds no course and keeps the count exact.
pub proof fn law_award_keeps_tally(
    pre: Map<Address, Record>,
    post: Map<Address, Record>,
    r: Result<(TokensAwarded, Transfer), ErrorCode>,
    ctx: AwardTokens,
    amount: u64,
    achievement_type: AchievementType,
    now: i64,
    derived_lms: Option<(Seq<u8>, u8)>,
    derived_achievement: Option<(Seq<u8>, u8)>,
    lms: Address,
)
    requires
        award_tokens_post(pre, post, r, ctx, amount, achievement_type, now, derived_lms, derived_achievement),
        courses_tallied(pre, lms),
    ensures
        courses_tallied(post, lms),
        course_count(post) == course_count(pre),
        tallied_step(pre, post, false, lms),
{
    if r is Ok {
        lemma_insert_count(pre, ctx.achievement, post[ctx.achievement]);
    }
}

/// Recording progress adds no course and keeps the count exact.
pub proof fn law_update_keeps_tally(
    pre: Map<Address, Record>,
    post: Map<Address, Record>,
    r: Result<ProgressUpdated, ErrorCode>,
    ctx: UpdateProgress,
    progress_percentage: u8,
    derived: Option<(Seq<u8>, u8)>,
    lms: Address,
)
    requires
        update_progress_post(pre, post, r, ctx, progress_percentage, derived),
        courses_tallied(pre, lms),
    ensures
        courses_tallied(post, lms),
        course_count(post) == course_count(pre),
        tallied_step(pre, post, false, lms),
{
    if r is Ok {
        lemma_insert_count(pre, ctx.enrollment, post[ctx.enrollment]);
    }
}

/// One step of a history: `created` tells whether the step was a successful
/// creation of a course; the count of stored courses moves by one exactly
/// then, the root record's count stays exact, and the root record stays.
/// Every operation is such a step, in any order.
pub open spec fn tallied_step(
    pre: Map<Address, Record>,
    post: Map<Address, Record>,
    created: bool,
    lms: Address,
) -> bool {
    courses_tallied(pre, lms) ==> {
        &&& courses_tallied(post, lms)
        &&& course_count(post) == course_count(pre) + (if created {
            1int
        } else {
            0int
        })
        &&& lms_at(pre, lms) is Some ==> lms_at(post, lms) is Some
    }
}

/// The number of steps among the first `n` that created a course.
pub open spec fn creations(created: Seq<bool>, n: int) -> int
    decreases n,
{
    if n <= 0 {
        0
    } else {
        creations(created, n - 1) + (if created[n - 1] {
            1int
        } else {
            0int
        })
    }
}

/// Starting from a ledger that was just set up, after any interleaving of
/// operations of which N created a course, the root record counts N
/// courses, and exactly N courses are stored.
pub proof fn law_courses_counted_in_any_order(
    history: Seq<Map<Address, Record>>,
    created: Seq<bool>,
    lms: Address,
)
    requires
        history.len() == created.len() + 1,
        courses_tallied(history[0], lms),
        lms_at(history[0], lms) is Some,
        total_courses(history[0], lms) == 0,
        forall|i: int|
            0 <= i < created.len() ==> tallied_step(#[trigger] history[i], history[i + 1], created[i], lms),
    ensures
        courses_tallied(history.last(), lms),
        course_count(history.last()) == creations(created, created.len() as int),
        total_courses(history.last(), lms) == creations(created, created.len() as int),
{
    let n = created.len() as int;
    assert forall|k: int| 0 <= k <= n implies courses_tallied(#[trigger] history[k], lms) && lms_at(
        history[k],
        lms,
    ) is Some && course_count(history[k]) == creations(created, k) by {
        lemma_counted_prefix(history, created, lms, k);
    }
    assert(history.last() == history[n]);
}

proof fn lemma_counted_prefix(history: Seq<Map<Address, Record>>, created: Seq<bool>, lms: Address, k: int)
    requires
        history.len() == created.len() + 1,
        courses_tallied(history[0], lms),
        lms_at(history[0], lms) is Some,
        total_courses(history[0], lms) == 0,
        forall|i: int|
            0 <= i < created.len() ==> tallied_step(#[trigger] history[i], history[i + 1], created[i], lms),
        0 <= k <= created.len(),
    ensures
        courses_tallied(history[k], lms),
        lms_at(history[k], lms) is Some,
        course_count(history[k]) == creations(created, k),
    decreases k,
{
    if k > 0 {
        lemma_counted_prefix(history, created, lms, k - 1);
        assert(tallied_step(history[k - 1], history[k], created[k - 1], lms));
    }
}

/// A freshly set up system counts no courses and no students.
pub proof fn law_initialize_counts_nothing(
    pre: Map<Address, Record>,
    post: Map<Address, Record>,
    r: Result<LmsInitialized, ErrorCode>,
    ctx: InitializeLms,
    name: String,
    description: String,
    derived: Option<(Seq<u8>, u8)>,
)
    requires
        initialize_lms_post(pre, post, r, ctx, name, description, derived),
        r is Ok,
    ensures
        lms_at(post, ctx.lms_account) is Some,
        total_courses(post, ctx.lms_account) == 0,
        total_students(post, ctx.lms_account) == 0,
        lms_at(post, ctx.lms_account).unwrap().authority == ctx.authority.key,
{
}

/// Creating a course adds exactly one to the root record's count of
/// courses; a refused request adds nothing.
pub proof fn law_create_course_counts_one(
    pre: Map<Address, Record>,
    post: Map<Address, Record>,
    r: Result<CourseCreated, ErrorCode>,
    ctx: CreateCourse,
    course_id: String,
    title: String,
    description: String,
    price: u64,
    max_students: u32,
    now: i64,
    derived_lms: Option<(Seq<u8>, u8)>,
    derived_course: Option<(Seq<u8>, u8)>,
)
    requires
        create_course_post(
            pre,
            post,
            r,
            ctx,
            course_id,
            title,
            description,
            price,
            max_students,
            now,
            derived_lms,
            derived_course,
        ),
    ensures
        r is Ok ==> course_added(pre, post, ctx.lms_account),
        r is Err ==> post == pre,
{
    if r is Ok {
        assert(ctx.course != ctx.lms_account);
    }
}

/// One step of a history in which the root record at `lms` gains a course.
pub open spec fn course_added(pre: Map<Address, Record>, post: Map<Address, Record>, lms: Address) -> bool {
    &&& lms_at(pre, lms) is Some
    &&& lms_at(post, lms) is Some
    &&& total_courses(post, lms) == total_courses(pre, lms) + 1
    &&& total_students(post, lms) == total_students(pre, lms)
}

/// A history in which every step creates one course under the root record
/// at `lms`.
pub open spec fn courses_only(history: Seq<Map<Address, Record>>, lms: Address) -> bool {
    forall|i: int| 0 <= i < history.len() - 1 ==> course_added(#[trigger] history[i], history[i + 1], lms)
}

/// After the system is set up, N courses created one after another leave
/// the root record counting N courses.
pub proof fn law_courses_counted(history: Seq<Map<Address, Record>>, lms: Address)
    requires
        history.len() >= 1,
        lms_at(history[0], lms) is Some,
        total_courses(history[0], lms) == 0,
        courses_only(history, lms),
    ensures
        total_courses(history.last(), lms) == history.len() - 1,
    decreases history.len(),
{
    if history.len() > 1 {
        let shorter = history.drop_last();
        assert forall|i: int| 0 <= i < shorter.len() - 1 implies course_added(
            #[trigger] shorter[i],
            shorter[i + 1],
            lms,
        ) by {
            assert(course_added(history[i], history[i + 1], lms));
        }
        law_courses_counted(shorter, lms);
        let k = history.len() - 2;
        assert(course_added(history[k], history[k + 1], lms));
        assert(shorter.last() == history[k]);
    }
}

/// One enrollment adds exactly one student to its course and exactly one to
/// the root record's count of students, and leaves every other course as it
/// was.
pub proof fn law_enroll_counts_one(
    pre: Map<Address, Record>,
    post: Map<Address, Record>,
    r: Result<StudentEnrolled, ErrorCode>,
    ctx: EnrollStudent,
    enrollment_id: String,
    now: i64,
    derived_lms: Option<(Seq<u8>, u8)>,
    derived_course: Option<(Seq<u8>, u8)>,
    derived_enrollment: Option<(Seq<u8>, u8)>,
)
    requires
        enroll_student_post(pre, post, r, ctx, enrollment_id, now, derived_lms, derived_course, derived_enrollment),
        r is Ok,
    ensures
        current_students(post, ctx.course) == current_students(pre, ctx.course) + 1,
        total_students(post, ctx.lms_account) == total_students(pre, ctx.lms_account) + 1,
        total_courses(post, ctx.lms_account) == total_courses(pre, ctx.lms_account),
        forall|other: Address| other != ctx.course ==> course_at(post, other) == course_at(pre, other),
        enrollment_at(post, ctx.enrollment) is Some,
        enrollment_at(post, ctx.enrollment).unwrap().progress == 0,
        enrollment_at(post, ctx.enrollment).unwrap().student == ctx.student.key,
{
    assert(ctx.course != ctx.lms_account);
    assert(ctx.enrollment != ctx.course);
    assert(ctx.enrollment != ctx.lms_account);
}

/// The first reward of one kind to one student is recorded and asks for
/// exactly one transfer of the amount; a second request for the same student
/// and kind is refused, asks for no transfer and changes nothing. Where the
/// second request is the first one repeated, the refusal is that the
/// achievement already exists.
pub proof fn law_one_award_per_kind(
    pre: Map<Address, Record>,
    mid: Map<Address, Record>,
    post: Map<Address, Record>,
    r1: Result<(TokensAwarded, Transfer), ErrorCode>,
    r2: Result<(TokensAwarded, Transfer), ErrorCode>,
    ctx1: AwardTokens,
    ctx2: AwardTokens,
    amount1: u64,
    amount2: u64,
    achievement_type: AchievementType,
    now1: i64,
    now2: i64,
    derived_lms: Option<(Seq<u8>, u8)>,
    derived_achievement: Option<(Seq<u8>, u8)>,
)
    requires
        ctx2.student == ctx1.student,
        award_tokens_post(pre, mid, r1, ctx1, amount1, achievement_type, now1, derived_lms, derived_achievement),
        award_tokens_post(mid, post, r2, ctx2, amount2, achievement_type, now2, derived_lms, derived_achievement),
        r1 is Ok,
    ensures
        r1 matches Ok((_, transfer)) && transfer.amount == amount1 && transfer.to == ctx1.student_token_account,
        mid.dom().contains(ctx1.achievement),
        mid[ctx1.achievement] is Achievement,
        r2 is Err,
        post == mid,
        ctx2 == ctx1 ==> r2 == Err::<(TokensAwarded, Transfer), ErrorCode>(ErrorCode::AlreadyExists),
{
    lemma_address_by_bytes(ctx1.achievement, ctx2.achievement);
    assert(mid.dom().contains(ctx1.achievement));
    assert(ctx1.achievement != ctx1.lms_account);
}

} // verus!
