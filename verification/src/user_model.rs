//! Users with their email, wallet and password records.

use vstd::prelude::*;
use crate::clock::{names_a_calendar_time, new_uuid, now_formatted};
use crate::hashing::{hex_encode, hex_lower, sha256_digest, sha256_of};
use vstd::utf8::encode_utf8;

verus! {

/// The stored form of a password: the lowercase hex text of the SHA-256
/// digest of its UTF-8 bytes.
pub open spec fn password_digest(password: Seq<char>) -> Seq<char> {
    hex_lower(sha256_of(encode_utf8(password)))
}

/// The stored form of `password`.
fn hash_password(password: &str) -> (r: String)
    ensures
        r@ == password_digest(password@),
{
    let digest = sha256_digest(password.as_bytes());
    hex_encode(digest.as_slice())
}

/// The text of an optional string.
pub open spec fn opt_text(s: Option<String>) -> Option<Seq<char>> {
    match s {
        Some(t) => Some(t@),
        None => None,
    }
}

/// An email address, whether it was verified and when it last changed.
#[derive(Debug)]
pub struct Email {
    pub email: String,
    pub verified: bool,
    pub updated_at: String,
}

pub struct EmailView {
    pub email: Seq<char>,
    pub verified: bool,
    pub updated_at: Seq<char>,
}

impl View for Email {
    type V = EmailView;

    open spec fn view(&self) -> EmailView {
        EmailView { email: self.email@, verified: self.verified, updated_at: self.updated_at@ }
    }
}

impl Clone for Email {
    fn clone(&self) -> (r: Self)
        ensures
            r@ == self@,
    {
        Email {
            email: self.email.clone(),
            verified: self.verified,
            updated_at: self.updated_at.clone(),
        }
    }
}

/// A linked wallet address, if any, and when it last changed.
#[derive(Debug)]
pub struct Wallet {
    pub wallet_address: Option<String>,
    pub updated_at: String,
}

pub struct WalletView {
    pub wallet_address: Option<Seq<char>>,
    pub updated_at: Seq<char>,
}

impl View for Wallet {
    type V = WalletView;

    open spec fn view(&self) -> WalletView {
        WalletView { wallet_address: opt_text(self.wallet_address), updated_at: self.updated_at@ }
    }
}

/// Clones an optional string.
fn clone_opt(s: &Option<String>) -> (r: Option<String>)
    ensures
        opt_text(r) == opt_text(*s),
{
    match s {
        Some(t) => Some(t.clone()),
        None => None,
    }
}

impl Clone for Wallet {
    fn clone(&self) -> (r: Self)
        ensures
            r@ == self@,
    {
        Wallet {
            wallet_address: clone_opt(&self.wallet_address),
            updated_at: self.updated_at.clone(),
        }
    }
}

/// A password's stored digest and when it last changed.
#[derive(Debug)]
pub struct Password {
    pub password_hash: String,
    pub updated_at: String,
}

pub struct PasswordView {
    pub password_hash: Seq<char>,
    pub updated_at: Seq<char>,
}

impl View for Password {
    type V = PasswordView;

    open spec fn view(&self) -> PasswordView {
        PasswordView { password_hash: self.password_hash@, updated_at: self.updated_at@ }
    }
}

impl Clone for Password {
    fn clone(&self) -> (r: Self)
        ensures
            r@ == self@,
    {
        Password { password_hash: self.password_hash.clone(), updated_at: self.updated_at.clone() }
    }
}

/// A registered user.
#[derive(Debug)]
pub struct User {
    pub user_uuid: String,
    pub user_name: String,
    pub email: Email,
    pub wallet: Wallet,
    pub password: Password,
    pub created_at: String,
}

pub struct UserView {
    pub user_uuid: Seq<char>,
    pub user_name: Seq<char>,
    pub email: EmailView,
    pub wallet: WalletView,
    pub password: PasswordView,
    pub created_at: Seq<char>,
}

impl View for User {
    type V = UserView;

    open spec fn view(&self) -> UserView {
        UserView {
            user_uuid: self.user_uuid@,
            user_name: self.user_name@,
            email: self.email@,
            wallet: self.wallet@,
            password: self.password@,
            created_at: self.created_at@,
        }
    }
}

impl Clone for User {
    fn clone(&self) -> (r: Self)
        ensures
            r@ == self@,
    {
        User {
            user_uuid: self.user_uuid.clone(),
            user_name: self.user_name.clone(),
            email: self.email.clone(),
            wallet: self.wallet.clone(),
            password: self.password.clone(),
            created_at: self.created_at.clone(),
        }
    }
}

/// What of a user may be shown to others.
#[derive(Debug)]
pub struct SimpleUserStruct {
    pub user_uuid: String,
    pub user_name: String,
    pub email: String,
    pub wallet_address: Option<String>,
}

/// What `format!("{:?}", ..)` gives for a public user record with these fields.
pub uninterp spec fn simple_user_debug_text(
    user_uuid: Seq<char>,
    user_name: Seq<char>,
    email: Seq<char>,
    wallet_address: Option<Seq<char>>,
) -> Seq<char>;

/// The `Debug` rendering of a public user record, as a handler answers it.
///
/// Trusted: calls `format!("{:?}", shown)` with the derived `Debug` of
/// `SimpleUserStruct`, which depends on the record's fields alone. Its result
/// is named `simple_user_debug_text`; the layout std gives it is not stated.
#[verifier::external_body]
pub(crate) fn debug_simple_user(shown: &SimpleUserStruct) -> (r: String)
    ensures
        r@ == simple_user_debug_text(
            shown.user_uuid@,
            shown.user_name@,
            shown.email@,
            opt_text(shown.wallet_address),
        ),
{
    format!("{:?}", shown)
}

/// Whether a user's stored password digest is that of `password`.
pub open spec fn accepts_password(u: UserView, password: Seq<char>) -> bool {
    u.password.password_hash == password_digest(password)
}

/// A time the clock writes is never the placeholder of a never-linked wallet,
/// whose month and day are `00`: a new user's creation time, or a wallet's
/// update time, names a real date.
pub proof fn lemma_calendar_time_is_not_unset(s: Seq<char>)
    requires
        names_a_calendar_time(s),
    ensures
        s != unset_wallet_time(),
{
    reveal_strlit("0000-00-00 00:00:00");
    if s == unset_wallet_time() {
        assert(s[5] == '0' && s[6] == '0');
    }
}

/// Two passwords that the same stored digest accepts have the same SHA-256
/// digest of their whole UTF-8 bytes: the stored form loses nothing of the
/// password that the digest keeps.
pub proof fn lemma_accepted_passwords_share_their_digest(
    u: UserView,
    first: Seq<char>,
    second: Seq<char>,
)
    requires
        accepts_password(u, first),
        accepts_password(u, second),
    ensures
        sha256_of(encode_utf8(first)) == sha256_of(encode_utf8(second)),
{
    crate::hashing::lemma_hex_lower_injective(
        sha256_of(encode_utf8(first)),
        sha256_of(encode_utf8(second)),
    );
}

/// The wallet timestamp of a user who has never linked a wallet.
pub open spec fn unset_wallet_time() -> Seq<char> {
    "0000-00-00 00:00:00"@
}

impl User {
    /// A new user created at `created_at` (a formatted time), with a fresh
    /// identifier, an unverified email, no wallet, and the digest of `password`
    /// as the stored password.
    pub fn new_at(user_name: String, email: String, password: String, created_at: String) -> (r: Result<
        Self,
        String,
    >)
        ensures
            r is Ok,
            r matches Ok(u) ==> {
                &&& u@.user_uuid.len() == 36
                &&& u@.user_name == user_name@
                &&& u@.email.email == email@
                &&& !u@.email.verified
                &&& u@.wallet.wallet_address is None
                &&& u@.wallet.updated_at == unset_wallet_time()
                &&& accepts_password(u@, password@)
                &&& u@.created_at == created_at@
            },
    {
        let user_uuid = new_uuid();
        let wallet = Wallet {
            wallet_address: None,
            updated_at: String::from_str("0000-00-00 00:00:00"),
        };
        let email_struct = match Email::new(email) {
            Ok(e) => e,
            Err(m) => return Err(m),
        };
        let password_struct = match Password::new(password) {
            Ok(p) => p,
            Err(m) => return Err(m),
        };
        Ok(
            User {
                user_uuid,
                user_name,
                email: email_struct,
                wallet,
                password: password_struct,
                created_at,
            },
        )
    }

    /// A new user with a fresh identifier, created now, with an unverified
    /// email, no wallet, and the digest of `password` as the stored password.
    pub fn new(user_name: String, email: String, password: String) -> (r: Result<Self, String>)
        ensures
            r is Ok,
            r matches Ok(u) ==> {
                &&& u@.user_uuid.len() == 36
                &&& u@.user_name == user_name@
                &&& u@.email.email == email@
                &&& !u@.email.verified
                &&& u@.wallet.wallet_address is None
                &&& u@.wallet.updated_at == unset_wallet_time()
                &&& accepts_password(u@, password@)
                &&& names_a_calendar_time(u@.created_at)
            },
    {
        let created_at = now_formatted();
        User::new_at(user_name, email, password, created_at)
    }

    /// The public part of the user.
    pub fn display(&self) -> (r: SimpleUserStruct)
        ensures
            r.user_uuid@ == self.user_uuid@,
            r.user_name@ == self.user_name@,
            r.email@ == self.email.email@,
            opt_text(r.wallet_address) == opt_text(self.wallet.wallet_address),
    {
        SimpleUserStruct {
            user_uuid: self.user_uuid.clone(),
            user_name: self.user_name.clone(),
            email: self.email.email.clone(),
            wallet_address: clone_opt(&self.wallet.wallet_address),
        }
    }

    /// Replaces the email address, which becomes unverified, and returns a copy
    /// of the updated user.
    pub fn update_email(&mut self, email: String) -> (r: Result<Self, String>)
        ensures
            final(self)@ == (UserView {
                email: EmailView { email: email@, verified: false, ..old(self)@.email },
                ..old(self)@
            }),
            r matches Ok(u) && u@ == final(self)@,
    {
        self.email.update_email(email);
        Ok(self.clone())
    }

    /// Stores the digest of a new password and returns a copy of the updated user.
    pub fn change_password(&mut self, password: String) -> (r: Result<Self, String>)
        ensures
            accepts_password(final(self)@, password@),
            final(self)@ == (UserView {
                password: PasswordView {
                    password_hash: password_digest(password@),
                    updated_at: final(self)@.password.updated_at,
                },
                ..old(self)@
            }),
            r matches Ok(u) && u@ == final(self)@,
    {
        let password_hash = hash_password(password.as_str());
        self.password.update_password(password_hash);
        Ok(self.clone())
    }

    /// Whether `password` is the user's password: its digest is the stored one.
    pub fn compare_password(&self, password: String) -> (r: bool)
        ensures
            r == accepts_password(self@, password@),
    {
        let password_hash = hash_password(password.as_str());
        self.password.password_hash == password_hash
    }
}

impl Email {
    /// A new, unverified email record, stamped `updated_at`.
    pub fn new_at(email: String, updated_at: String) -> (r: Result<Email, String>)
        ensures
            r matches Ok(e) && e@ == (EmailView { email: email@, verified: false, updated_at: updated_at@ }),
    {
        Ok(Email { email, verified: false, updated_at })
    }

    /// A new, unverified email record, stamped now.
    pub fn new(email: String) -> (r: Result<Email, String>)
        ensures
            r matches Ok(e) && e@.email == email@ && !e@.verified && names_a_calendar_time(
                e@.updated_at,
            ),
    {
        let created_at = now_formatted();
        Email::new_at(email, created_at)
    }

    /// Marks the email as verified.
    pub fn verify(&mut self) -> (r: Result<bool, String>)
        ensures
            r == Ok::<bool, String>(true),
            final(self)@ == (EmailView { verified: true, ..old(self)@ }),
    {
        self.verified = true;
        Ok(self.verified)
    }

    /// The email address.
    pub fn get_email(&self) -> (r: &str)
        ensures
            r@ == self.email@,
    {
        self.email.as_str()
    }

    /// Whether the address was verified.
    pub fn get_verified(&self) -> (r: bool)
        ensures
            r == self.verified,
    {
        self.verified
    }

    /// Replaces the address, which becomes unverified; answers that it is unverified.
    pub fn update_email(&mut self, email: String) -> (r: bool)
        ensures
            r,
            final(self)@ == (EmailView { email: email@, verified: false, ..old(self)@ }),
    {
        self.email = email;
        self.verified = false;
        !self.verified
    }
}

impl Password {
    /// A new password record holding the digest of `password`, stamped `updated_at`.
    pub fn new_at(password: String, updated_at: String) -> (r: Result<Password, String>)
        ensures
            r matches Ok(p) && p@ == (PasswordView {
                password_hash: password_digest(password@),
                updated_at: updated_at@,
            }),
    {
        let password_hash = hash_password(password.as_str());
        Ok(Password { password_hash, updated_at })
    }

    /// A new password record holding the digest of `password`, stamped now.
    pub fn new(password: String) -> (r: Result<Password, String>)
        ensures
            r matches Ok(p) && p@.password_hash == password_digest(password@)
                && names_a_calendar_time(p@.updated_at),
    {
        let created_at = now_formatted();
        Password::new_at(password, created_at)
    }

    /// The stored digest.
    pub fn get_password_hash(&self) -> (r: &str)
        ensures
            r@ == self.password_hash@,
    {
        self.password_hash.as_str()
    }

    /// Stores a new digest, stamped `updated_at`; answers whether the digest is non-empty.
    pub fn update_password_at(&mut self, password_hash: String, updated_at: String) -> (r: bool)
        ensures
            final(self)@ == (PasswordView { password_hash: password_hash@, updated_at: updated_at@ }),
            r == (password_hash@.len() > 0),
    {
        self.password_hash = password_hash;
        self.updated_at = updated_at;
        !self.password_hash.as_str().is_empty()
    }

    /// Stores a new digest, stamped now; answers whether the digest is non-empty.
    pub fn update_password(&mut self, password_hash: String) -> (r: bool)
        ensures
            final(self)@.password_hash == password_hash@,
            names_a_calendar_time(final(self)@.updated_at),
            r == (password_hash@.len() > 0),
    {
        let now = now_formatted();
        self.update_password_at(password_hash, now)
    }
}

impl Wallet {
    /// A wallet record holding `wallet_address`, stamped `updated_at`.
    pub fn new_at(wallet_address: String, updated_at: String) -> (r: Wallet)
        ensures
            r@ == (WalletView { wallet_address: Some(wallet_address@), updated_at: updated_at@ }),
    {
        Wallet { wallet_address: Some(wallet_address), updated_at }
    }

    /// A wallet record holding `wallet_address`, stamped now.
    pub fn new(wallet_address: String) -> (r: Wallet)
        ensures
            r@.wallet_address == Some(wallet_address@),
            names_a_calendar_time(r@.updated_at),
    {
        let updated_at = now_formatted();
        Wallet::new_at(wallet_address, updated_at)
    }

    /// Links `wallet_address`, stamped `updated_at`; answers that a wallet is linked.
    pub fn update_wallet_at(&mut self, wallet_address: String, updated_at: String) -> (r: bool)
        ensures
            r,
            final(self)@ == (WalletView { wallet_address: Some(wallet_address@), updated_at: updated_at@ }),
    {
        self.wallet_address = Some(wallet_address);
        self.updated_at = updated_at;
        self.wallet_address.is_some()
    }

    /// Links `wallet_address`, stamped now; answers that a wallet is linked.
    pub fn update_wallet(&mut self, wallet_address: String) -> (r: bool)
        ensures
            r,
            final(self)@.wallet_address == Some(wallet_address@),
            names_a_calendar_time(final(self)@.updated_at),
    {
        let now = now_formatted();
        self.update_wallet_at(wallet_address, now)
    }
}

} // verus!
