//! Identities, record schemas, notifications and error kinds.

use vstd::prelude::*;

verus! {

/// Longest natural key (course, enrollment or certificate id), in bytes.
pub const MAX_ID_BYTES: usize = 64;

/// Longest free text field (name, title, description, locator), in bytes.
pub const MAX_TEXT_BYTES: usize = 256;

/// Highest legal progress percentage.
pub const MAX_PROGRESS: u8 = 100;

/// A 32-byte identity: the address of a record, of an actor, or of the program.
#[derive(Clone, Copy, Debug, PartialEq, Eq)]
pub struct Address {
    pub bytes: [u8; 32],
}

impl View for Address {
    type V = Seq<u8>;

    open spec fn view(&self) -> Seq<u8> {
        self.bytes@
    }
}

impl Address {
    /// Builds an address from its 32 bytes.
    pub fn new(bytes: [u8; 32]) -> (r: Address)
        ensures
            r.bytes == bytes,
    {
        Address { bytes }
    }

    /// Byte-wise comparison of two addresses.
    pub fn same(&self, other: &Address) -> (r: bool)
        ensures
            r == (*self == *other),
            r == (self@ == other@),
    {
        let mut i: usize = 0;
        while i < 32
            invariant
                i <= 32,
                forall|j: int| 0 <= j < i ==> self.bytes[j] == other.bytes[j],
            decreases 32 - i,
        {
            if self.bytes[i] != other.bytes[i] {
                assert(self.bytes@[i as int] != other.bytes@[i as int]);
                return false;
            }
            i += 1;
        }
        assert(self.bytes =~= other.bytes);
        true
    }
}

/// Two addresses with the same bytes are the same address.
pub proof fn lemma_address_by_bytes(a: Address, b: Address)
    ensures
        (a@ == b@) == (a == b),
{
    if a@ == b@ {
        assert(forall|i: int| 0 <= i < 32 ==> a.bytes[i] == a.bytes@[i]);
        assert(forall|i: int| 0 <= i < 32 ==> b.bytes[i] == b.bytes@[i]);
        assert(a.bytes =~= b.bytes);
    }
}

/// An actor named in a request, with the host's verdict on its signature.
#[derive(Clone, Copy, Debug, PartialEq, Eq)]
pub struct Signer {
    pub key: Address,
    pub signed: bool,
}

/// Category of a credential.
#[derive(Clone, Copy, Debug, PartialEq, Eq, Structural)]
pub enum CredentialType {
    Certificate,
    Diploma,
    Badge,
    MicroCredential,
}

/// Category of an achievement reward.
#[derive(Clone, Copy, Debug, PartialEq, Eq, Structural)]
pub enum AchievementType {
    CourseCompletion,
    QuizMaster,
    Participation,
    Leadership,
    Innovation,
}

impl AchievementType {
    /// The kind's name, which is also its part of an achievement's natural key.
    pub open spec fn name(self) -> &'static str {
        match self {
            AchievementType::CourseCompletion => "CourseCompletion",
            AchievementType::QuizMaster => "QuizMaster",
            AchievementType::Participation => "Participation",
            AchievementType::Leadership => "Leadership",
            AchievementType::Innovation => "Innovation",
        }
    }

    /// Returns the kind's name.
    pub fn label(self) -> (r: &'static str)
        ensures
            r == self.name(),
    {
        match self {
            AchievementType::CourseCompletion => "CourseCompletion",
            AchievementType::QuizMaster => "QuizMaster",
            AchievementType::Participation => "Participation",
            AchievementType::Leadership => "Leadership",
            AchievementType::Innovation => "Innovation",
        }
    }
}

/// Why an operation was refused.
#[derive(Clone, Copy, Debug, PartialEq, Eq, Structural)]
pub enum ErrorCode {
    /// Progress percentage above 100.
    InvalidProgress,
    /// Course is full.
    CourseFull,
    /// Course is not active.
    CourseInactive,
    /// The caller is not the identity the record names.
    Unauthorized,
    /// The acting identity did not sign the request.
    MissingSignature,
    /// A supplied address is not the one derived from the record's natural key.
    AddressMismatch,
    /// A record already exists at the address to be created.
    AlreadyExists,
    /// No record of the expected type exists at a referenced address.
    NotFound,
    /// A text argument exceeds the width reserved for it.
    FieldTooLong,
    /// A counter is already at its maximum.
    CounterOverflow,
    /// The token ledger refused the transfer.
    TransferFailed,
}

/// The four classes of refusal.
#[derive(Clone, Copy, Debug, PartialEq, Eq, Structural)]
pub enum ErrorClass {
    /// An argument or a counter is out of range.
    Validation,
    /// The caller did not sign, or is not the identity that may act.
    Authorization,
    /// A record is not where its key says, is missing, or is there already.
    Derivation,
    /// The token ledger failed.
    External,
}

impl ErrorCode {
    /// The class of the error.
    pub open spec fn class_of(self) -> ErrorClass {
        match self {
            ErrorCode::InvalidProgress | ErrorCode::CourseFull | ErrorCode::CourseInactive
            | ErrorCode::FieldTooLong | ErrorCode::CounterOverflow => ErrorClass::Validation,
            ErrorCode::Unauthorized | ErrorCode::MissingSignature => ErrorClass::Authorization,
            ErrorCode::AddressMismatch | ErrorCode::AlreadyExists | ErrorCode::NotFound => ErrorClass::Derivation,
            ErrorCode::TransferFailed => ErrorClass::External,
        }
    }

    /// Returns the class of the error.
    pub fn class(self) -> (r: ErrorClass)
        ensures
            r == self.class_of(),
    {
        match self {
            ErrorCode::InvalidProgress | ErrorCode::CourseFull | ErrorCode::CourseInactive
            | ErrorCode::FieldTooLong | ErrorCode::CounterOverflow => ErrorClass::Validation,
            ErrorCode::Unauthorized | ErrorCode::MissingSignature => ErrorClass::Authorization,
            ErrorCode::AddressMismatch | ErrorCode::AlreadyExists | ErrorCode::NotFound => ErrorClass::Derivation,
            ErrorCode::TransferFailed => ErrorClass::External,
        }
    }

    /// The message that goes with the error.
    pub open spec fn text(self) -> &'static str {
        match self {
            ErrorCode::InvalidProgress => "Invalid progress percentage",
            ErrorCode::CourseFull => "Course is full",
            ErrorCode::CourseInactive => "Course is not active",
            ErrorCode::Unauthorized => "Unauthorized access",
            ErrorCode::MissingSignature => "Missing signature",
            ErrorCode::AddressMismatch => "Address does not match its derivation",
            ErrorCode::AlreadyExists => "Record already exists",
            ErrorCode::NotFound => "Record not found",
            ErrorCode::FieldTooLong => "Text field too long",
            ErrorCode::CounterOverflow => "Counter at its maximum",
            ErrorCode::TransferFailed => "Token transfer failed",
        }
    }

    /// Returns the message that goes with the error.
    pub fn message(self) -> (r: &'static str)
        ensures
            r == self.text(),
    {
        match self {
            ErrorCode::InvalidProgress => "Invalid progress percentage",
            ErrorCode::CourseFull => "Course is full",
            ErrorCode::CourseInactive => "Course is not active",
            ErrorCode::Unauthorized => "Unauthorized access",
            ErrorCode::MissingSignature => "Missing signature",
            ErrorCode::AddressMismatch => "Address does not match its derivation",
            ErrorCode::AlreadyExists => "Record already exists",
            ErrorCode::NotFound => "Record not found",
            ErrorCode::FieldTooLong => "Text field too long",
            ErrorCode::CounterOverflow => "Counter at its maximum",
            ErrorCode::TransferFailed => "Token transfer failed",
        }
    }
}

/// The singleton root record.
#[derive(Debug)]
pub struct LmsAccount {
    pub authority: Address,
    pub name: String,
    pub description: String,
    pub total_courses: u64,
    pub total_students: u64,
    pub total_instructors: u64,
    pub bump: u8,
}

/// A course, owned by its instructor.
#[derive(Debug)]
pub struct Course {
    pub course_id: String,
    pub title: String,
    pub description: String,
    pub instructor: Address,
    pub price: u64,
    pub max_students: u32,
    pub current_students: u32,
    pub is_active: bool,
    pub created_at: i64,
    pub bump: u8,
}

/// One student's place in one course.
#[derive(Debug)]
pub struct Enrollment {
    pub enrollment_id: String,
    pub student: Address,
    pub course: Address,
    pub enrolled_at: i64,
    pub is_active: bool,
    pub progress: u8,
    pub bump: u8,
}

/// A credential issued to a student for a course.
#[derive(Debug)]
pub struct Certificate {
    pub certificate_id: String,
    pub student: Address,
    pub course: Address,
    pub instructor: Address,
    pub credential_type: CredentialType,
    pub metadata_uri: String,
    pub issued_at: i64,
    pub is_verified: bool,
    pub bump: u8,
}

/// A reward of one kind to one student.
#[derive(Debug)]
pub struct Achievement {
    pub student: Address,
    pub achievement_type: AchievementType,
    pub amount: u64,
    pub awarded_at: i64,
    pub bump: u8,
}

/// A stored record, tagged by its type.
#[derive(Debug)]
pub enum Record {
    Lms(LmsAccount),
    Course(Course),
    Enrollment(Enrollment),
    Certificate(Certificate),
    Achievement(Achievement),
}

/// Notification: the system was set up.
#[derive(Debug)]
pub struct LmsInitialized {
    pub authority: Address,
    pub lms_account: Address,
}

/// Notification: a course was created.
#[derive(Debug)]
pub struct CourseCreated {
    pub course: Address,
    pub instructor: Address,
    pub course_id: String,
}

/// Notification: a student enrolled.
#[derive(Debug)]
pub struct StudentEnrolled {
    pub enrollment: Address,
    pub student: Address,
    pub course: Address,
}

/// Notification: a credential was issued.
#[derive(Debug)]
pub struct CertificateIssued {
    pub certificate: Address,
    pub student: Address,
    pub course: Address,
    pub credential_type: CredentialType,
}

/// Notification: an achievement was rewarded.
#[derive(Debug)]
pub struct TokensAwarded {
    pub student: Address,
    pub amount: u64,
    pub achievement_type: AchievementType,
}

/// Notification: progress was recorded.
#[derive(Debug)]
pub struct ProgressUpdated {
    pub enrollment: Address,
    pub student: Address,
    pub progress: u8,
}

/// One transfer on the token ledger, to be carried out by the host.
#[derive(Debug)]
pub struct Transfer {
    pub from: Address,
    pub to: Address,
    pub authority: Address,
    pub amount: u64,
}

} // verus!
