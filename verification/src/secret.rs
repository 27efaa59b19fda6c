//! Secrets held in memory, on top of the `zeroize` crate.
use vstd::prelude::*;
use zeroize::{Zeroize, Zeroizing};

verus! {

/// A secret string. Its buffer is a `zeroize::Zeroizing`, which overwrites it
/// with zeros when it is dropped.
#[verifier::external_body]
pub struct Secret {
    text: Zeroizing<String>,
}

/// The characters that a secret holds.
pub uninterp spec fn concealed(secret: Secret) -> Seq<char>;

impl View for Secret {
    type V = Seq<char>;

    open spec fn view(&self) -> Seq<char> {
        concealed(*self)
    }
}

/// Calls `zeroize::Zeroizing::new`, which moves the string into the wrapper
/// and leaves its characters as they are. That the buffer is overwritten once the
/// secret is dropped is not part of the contract, which speaks of values and not
/// of memory that was released.
#[verifier::external_body]
pub(crate) fn conceal(text: String) -> (secret: Secret)
    ensures
        concealed(secret) == text@,
{
    Secret { text: Zeroizing::new(text) }
}

/// Calls `Deref::deref` of `zeroize::Zeroizing`, which borrows the string that
/// was moved into the wrapper.
#[verifier::external_body]
pub(crate) fn uncover(secret: &Secret) -> (text: &String)
    ensures
        text@ == concealed(*secret),
{
    &secret.text
}

/// Calls `zeroize::Zeroize::zeroize` on a string, which overwrites its buffer
/// with zeros and leaves it empty. The contract says that it is empty; what its
/// spare memory holds is not a value that a contract can name.
#[verifier::external_body]
pub(crate) fn wipe(text: &mut String)
    ensures
        final(text)@ == Seq::<char>::empty(),
{
    text.zeroize();
}

} // verus!
