//! Short-lived, one-time proof that a human recently reauthenticated.

use vstd::prelude::*;
use vstd::utf8::{encode_utf8, has_width_1_encoding, has_width_2_encoding, has_width_3_encoding};

use crate::ids::random_uuid;

verus! {

/// Largest accepted request correlation identifier, in UTF-8 bytes.
pub const REQUEST_ID_MAX_BYTES: usize = 256;

/// Lifetime of a receipt, in seconds (five minutes).
pub const RECEIPT_LIFETIME_SECONDS: i64 = 300;

/// Unicode `White_Space` characters, which `str::trim` removes.
pub open spec fn is_white_space(c: char) -> bool {
    let n = c as u32;
    ||| 0x9 <= n <= 0xd
    ||| n == 0x20
    ||| n == 0x85
    ||| n == 0xa0
    ||| n == 0x1680
    ||| 0x2000 <= n <= 0x200a
    ||| n == 0x2028
    ||| n == 0x2029
    ||| n == 0x202f
    ||| n == 0x205f
    ||| n == 0x3000
}

/// A text with nothing but white space (the empty text included).
pub open spec fn is_blank(text: Seq<char>) -> bool {
    forall|i: int| 0 <= i < text.len() ==> is_white_space(#[trigger] text[i])
}

/// Whether a character is Unicode white space.
pub fn white_space(c: char) -> (ws: bool)
    ensures
        ws == is_white_space(c),
{
    let n = c as u32;
    (0x9 <= n && n <= 0xd) || n == 0x20 || n == 0x85 || n == 0xa0 || n == 0x1680 || (0x2000 <= n
        && n <= 0x200a) || n == 0x2028 || n == 0x2029 || n == 0x202f || n == 0x205f || n == 0x3000
}

/// Whether a text holds only white space.
pub fn blank(text: &str) -> (is: bool)
    ensures
        is == is_blank(text@),
{
    let n = text.unicode_len();
    let mut i: usize = 0;
    while i < n
        invariant
            n == text@.len(),
            i <= n,
            forall|j: int| 0 <= j < i ==> is_white_space(#[trigger] text@[j]),
        decreases n - i,
    {
        if !white_space(text.get_char(i)) {
            return false;
        }
        i = i + 1;
    }
    true
}

/// Number of UTF-8 bytes that encode a character.
pub open spec fn char_utf8_width(c: char) -> nat {
    let n = c as u32;
    if has_width_1_encoding(n) {
        1
    } else if has_width_2_encoding(n) {
        2
    } else if has_width_3_encoding(n) {
        3
    } else {
        4
    }
}

/// Number of UTF-8 bytes that encode a text.
pub open spec fn utf8_len(text: Seq<char>) -> nat
    decreases text.len(),
{
    if text.len() == 0 {
        0
    } else {
        char_utf8_width(text[0]) + utf8_len(text.drop_first())
    }
}

/// The byte count agrees with vstd's UTF-8 encoding of the text.
pub proof fn lemma_utf8_len_is_encoding_len(text: Seq<char>)
    ensures
        utf8_len(text) == encode_utf8(text).len(),
    decreases text.len(),
{
    if text.len() > 0 {
        lemma_utf8_len_is_encoding_len(text.drop_first());
    }
}

proof fn lemma_utf8_len_append(a: Seq<char>, b: Seq<char>)
    ensures
        utf8_len(a + b) == utf8_len(a) + utf8_len(b),
    decreases a.len(),
{
    if a.len() > 0 {
        assert((a + b).drop_first() =~= a.drop_first() + b);
        lemma_utf8_len_append(a.drop_first(), b);
    } else {
        assert(a + b =~= b);
    }
}

fn char_width(c: char) -> (width: usize)
    ensures
        width == char_utf8_width(c),
{
    let n = c as u32;
    if n <= 0x7f {
        1
    } else if n <= 0x7ff {
        2
    } else if n <= 0xffff && !(0xd800 <= n && n <= 0xdfff) {
        3
    } else {
        4
    }
}

/// Whether a text needs more than `bound` UTF-8 bytes.
pub fn utf8_len_exceeds(text: &str, bound: usize) -> (exceeds: bool)
    requires
        bound < usize::MAX - 4,
    ensures
        exceeds == (utf8_len(text@) > bound),
{
    let n = text.unicode_len();
    let mut i: usize = 0;
    let mut total: usize = 0;
    assert(text@.take(0) =~= Seq::<char>::empty());
    while i < n
        invariant
            n == text@.len(),
            i <= n,
            total == utf8_len(text@.take(i as int)),
            total <= bound,
            bound < usize::MAX - 4,
        decreases n - i,
    {
        let c = text.get_char(i);
        proof {
            lemma_utf8_len_append(text@.take(i as int), seq![c]);
            assert(text@.take(i as int) + seq![c] =~= text@.take(i + 1));
            assert(utf8_len(seq![c]) == char_utf8_width(c)) by {
                assert(seq![c].drop_first() =~= Seq::<char>::empty());
                assert(utf8_len(seq![c].drop_first()) == 0);
                assert(seq![c][0] == c);
            }
        }
        total = total + char_width(c);
        i = i + 1;
        if total > bound {
            proof {
                lemma_utf8_len_append(text@.take(i as int), text@.skip(i as int));
                assert(text@.take(i as int) + text@.skip(i as int) =~= text@);
            }
            return true;
        }
    }
    assert(text@.take(i as int) =~= text@);
    false
}

/// Validation failure at the receipt trust boundary.
#[derive(Debug, Clone, Copy, PartialEq, Eq, Structural)]
pub enum ReauthenticationValidationError {
    /// The request correlation identifier was empty.
    EmptyRequestId,
    /// The request correlation identifier exceeded its storage bound.
    RequestIdTooLong,
}

impl ReauthenticationValidationError {
    /// Human-readable message of the error.
    pub fn message(&self) -> (text: String)
        ensures
            text@ == match *self {
                ReauthenticationValidationError::EmptyRequestId => "request_id must not be empty"@,
                ReauthenticationValidationError::RequestIdTooLong => "request_id exceeds 256 bytes"@,
            },
    {
        match self {
            ReauthenticationValidationError::EmptyRequestId => "request_id must not be empty".to_owned(),
            ReauthenticationValidationError::RequestIdTooLong => "request_id exceeds 256 bytes".to_owned(),
        }
    }
}

/// Text that a request correlation identifier can be built from.
pub trait RequestText {
    /// The characters of the text.
    spec fn text_view(&self) -> Seq<char>;

    /// The text as an owned string.
    fn into_text(self) -> (text: String)
        ensures
            text@ == self.text_view(),
    ;
}

impl RequestText for String {
    open spec fn text_view(&self) -> Seq<char> {
        self@
    }

    fn into_text(self) -> (text: String) {
        self
    }
}

impl<'a> RequestText for &'a str {
    open spec fn text_view(&self) -> Seq<char> {
        (*self)@
    }

    fn into_text(self) -> (text: String) {
        self.to_owned()
    }
}

/// Required request correlation identifier. It correlates attempts and never deduplicates them.
#[derive(Debug, Clone)]
pub struct RequestCorrelationId(String);

impl View for RequestCorrelationId {
    type V = Seq<char>;

    closed spec fn view(&self) -> Seq<char> {
        self.0@
    }
}

/// A text is a valid correlation identifier when it is not blank and fits the storage bound.
pub open spec fn valid_request_id(text: Seq<char>) -> bool {
    !is_blank(text) && utf8_len(text) <= REQUEST_ID_MAX_BYTES
}

impl RequestCorrelationId {
    /// Validates a request correlation identifier.
    pub fn try_new<T: RequestText>(value: T) -> (result: Result<Self, ReauthenticationValidationError>)
        ensures
            is_blank(value.text_view()) ==> result == Err::<
                Self,
                ReauthenticationValidationError,
            >(ReauthenticationValidationError::EmptyRequestId),
            !is_blank(value.text_view()) && utf8_len(value.text_view()) > REQUEST_ID_MAX_BYTES ==> result == Err::<Self, ReauthenticationValidationError>(
                ReauthenticationValidationError::RequestIdTooLong,
            ),
            valid_request_id(value.text_view()) <==> result is Ok,
            result matches Ok(id) ==> id@ == value.text_view(),
    {
        let value = value.into_text();
        if blank(value.as_str()) {
            return Err(ReauthenticationValidationError::EmptyRequestId);
        }
        if utf8_len_exceeds(value.as_str(), REQUEST_ID_MAX_BYTES) {
            return Err(ReauthenticationValidationError::RequestIdTooLong);
        }
        Ok(RequestCorrelationId(value))
    }

    /// The identifier text.
    pub fn as_str(&self) -> (text: &str)
        ensures
            text@ == self@,
    {
        self.0.as_str()
    }

    /// A copy of the identifier.
    pub fn duplicate(&self) -> (copy: Self)
        ensures
            copy@ == self@,
    {
        RequestCorrelationId(self.0.clone())
    }
}

impl PartialEq for RequestCorrelationId {
    fn eq(&self, other: &Self) -> (equal: bool) {
        self.0 == other.0
    }
}

impl vstd::std_specs::cmp::PartialEqSpecImpl for RequestCorrelationId {
    open spec fn obeys_eq_spec() -> bool {
        true
    }

    open spec fn eq_spec(&self, other: &Self) -> bool {
        self@ == other@
    }
}

impl Eq for RequestCorrelationId {

}

/// Sensitive operation authorized by a receipt.
#[derive(Debug, Clone, Copy, PartialEq, Eq, Structural)]
pub enum ReceiptPurpose {
    /// Granting or revoking a company business role.
    CompanyRoleChange,
    /// Exporting the business audit log.
    BusinessAuditExport,
}

/// Stored name of a receipt purpose.
pub open spec fn purpose_text(purpose: ReceiptPurpose) -> Seq<char> {
    match purpose {
        ReceiptPurpose::CompanyRoleChange => "company_role_change"@,
        ReceiptPurpose::BusinessAuditExport => "business_audit_export"@,
    }
}

impl ReceiptPurpose {
    /// Stored name of the purpose.
    pub fn as_str(self) -> (text: &'static str)
        ensures
            text@ == purpose_text(self),
    {
        match self {
            ReceiptPurpose::CompanyRoleChange => "company_role_change",
            ReceiptPurpose::BusinessAuditExport => "business_audit_export",
        }
    }
}

/// Interactive proof used to mint a receipt.
#[derive(Debug, Clone, Copy, PartialEq, Eq, Structural)]
pub enum ProofMethod {
    /// The authenticated user supplied their password.
    Password,
    /// The authenticated user completed an MFA challenge after password verification.
    PasswordMfa,
}

/// Stored name of a proof method.
pub open spec fn proof_method_text(method: ProofMethod) -> Seq<char> {
    match method {
        ProofMethod::Password => "password"@,
        ProofMethod::PasswordMfa => "password_mfa"@,
    }
}

impl ProofMethod {
    /// Stored name of the proof method.
    pub fn as_str(self) -> (text: &'static str)
        ensures
            text@ == proof_method_text(self),
    {
        match self {
            ProofMethod::Password => "password",
            ProofMethod::PasswordMfa => "password_mfa",
        }
    }
}

/// A UTC instant: whole seconds since the Unix epoch and a sub-second part.
#[derive(Debug, Clone, Copy, PartialEq, Eq, Structural)]
pub struct UtcInstant {
    pub seconds: i64,
    pub nanos: u32,
}

/// Immutable scope used when consuming a receipt.
#[derive(Debug, Clone, PartialEq, Eq)]
pub struct ReceiptScope {
    /// Team whose sensitive operation is authorized.
    pub team_id: u128,
    /// Directly authenticated human principal.
    pub principal: String,
    /// Sensitive operation authorized by the receipt.
    pub purpose: ReceiptPurpose,
}

impl ReceiptScope {
    /// Builds a scope from already-validated identifiers.
    pub fn new(team_id: u128, principal: String, purpose: ReceiptPurpose) -> (scope: Self)
        ensures
            scope.team_id == team_id,
            scope.principal@ == principal@,
            scope.purpose == purpose,
    {
        ReceiptScope { team_id, principal, purpose }
    }

    /// A copy of the scope.
    pub fn duplicate(&self) -> (copy: Self)
        ensures
            copy.team_id == self.team_id,
            copy.principal@ == self.principal@,
            copy.purpose == self.purpose,
    {
        ReceiptScope {
            team_id: self.team_id,
            principal: self.principal.clone(),
            purpose: self.purpose,
        }
    }
}

/// Server-side, short-lived bearer receipt. Only its random id is exposed to clients.
#[derive(Debug)]
pub struct ReauthenticationReceipt {
    id: u128,
    scope: ReceiptScope,
    proof_method: ProofMethod,
    issued_at: UtcInstant,
    expires_at: UtcInstant,
    request_id: RequestCorrelationId,
}

impl ReauthenticationReceipt {
    /// The receipt expires exactly five minutes after it was issued.
    #[verifier::type_invariant]
    spec fn lifetime_is_five_minutes(self) -> bool {
        &&& self.expires_at.seconds == self.issued_at.seconds + RECEIPT_LIFETIME_SECONDS
        &&& self.expires_at.nanos == self.issued_at.nanos
    }

    /// Random bearer identifier.
    pub closed spec fn spec_id(self) -> u128 {
        self.id
    }

    /// Bound scope.
    pub closed spec fn spec_scope(self) -> (u128, Seq<char>, ReceiptPurpose) {
        (self.scope.team_id, self.scope.principal@, self.scope.purpose)
    }

    /// Proof method used.
    pub closed spec fn spec_proof_method(self) -> ProofMethod {
        self.proof_method
    }

    /// Issue time.
    pub closed spec fn spec_issued_at(self) -> UtcInstant {
        self.issued_at
    }

    /// Expiry time.
    pub closed spec fn spec_expires_at(self) -> UtcInstant {
        self.expires_at
    }

    /// Correlation identifier of the mint request.
    pub closed spec fn spec_request_id(self) -> Seq<char> {
        self.request_id@
    }

    /// Issues a new opaque one-time receipt at the supplied server time.
    pub fn issue(
        scope: ReceiptScope,
        proof_method: ProofMethod,
        issued_at: UtcInstant,
        request_id: RequestCorrelationId,
    ) -> (receipt: Self)
        requires
            issued_at.seconds <= i64::MAX - RECEIPT_LIFETIME_SECONDS,
        ensures
            receipt.spec_scope() == (scope.team_id, scope.principal@, scope.purpose),
            receipt.spec_proof_method() == proof_method,
            receipt.spec_issued_at() == issued_at,
            receipt.spec_expires_at().seconds == issued_at.seconds + RECEIPT_LIFETIME_SECONDS,
            receipt.spec_expires_at().nanos == issued_at.nanos,
            receipt.spec_request_id() == request_id@,
            receipt.spec_id() & 0xf000_c000_0000_0000_0000u128 == 0x4000_8000_0000_0000_0000u128,
    {
        let id = random_uuid();
        ReauthenticationReceipt {
            id,
            scope,
            proof_method,
            issued_at,
            expires_at: UtcInstant {
                seconds: issued_at.seconds + RECEIPT_LIFETIME_SECONDS,
                nanos: issued_at.nanos,
            },
            request_id,
        }
    }

    /// Random bearer identifier.
    pub fn id(&self) -> (id: u128)
        ensures
            id == self.spec_id(),
    {
        self.id
    }

    /// Team, human, and operation bound to this receipt.
    pub fn scope(&self) -> (scope: &ReceiptScope)
        ensures
            (scope.team_id, scope.principal@, scope.purpose) == self.spec_scope(),
    {
        &self.scope
    }

    /// Interactive proof used to mint the receipt.
    pub fn proof_method(&self) -> (method: ProofMethod)
        ensures
            method == self.spec_proof_method(),
    {
        self.proof_method
    }

    /// Time the proof was accepted.
    pub fn issued_at(&self) -> (at: UtcInstant)
        ensures
            at == self.spec_issued_at(),
    {
        self.issued_at
    }

    /// Hard expiry, five minutes after issuance.
    pub fn expires_at(&self) -> (at: UtcInstant)
        ensures
            at == self.spec_expires_at(),
            at.seconds == self.spec_issued_at().seconds + RECEIPT_LIFETIME_SECONDS,
            at.nanos == self.spec_issued_at().nanos,
    {
        proof {
            use_type_invariant(self);
        }
        self.expires_at
    }

    /// Correlation identifier of the mint request.
    pub fn request_id(&self) -> (id: &RequestCorrelationId)
        ensures
            id@ == self.spec_request_id(),
    {
        &self.request_id
    }
}

} // verus!
