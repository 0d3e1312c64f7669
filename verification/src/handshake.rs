//! The shared-secret handshake that admits a tunnel connection.
//!
//! The client opens a tunnel connection by writing the secret, unframed. The
//! relay reads exactly as many bytes as the secret has and admits the
//! connection if they are the secret.

use vstd::prelude::*;

verus! {

/// Why a tunnel connection was not admitted.
#[derive(Clone, Copy, Debug, PartialEq, Eq, Structural)]
pub enum HandshakeError {
    /// The connection closed or failed before as many bytes as the secret
    /// has had arrived.
    Incomplete,
    /// The bytes that arrived are not the secret.
    Mismatch,
}

/// The bytes of a read, if it was completed.
pub open spec fn bytes_of(received: Option<&[u8]>) -> Option<Seq<u8>> {
    match received {
        Some(bytes) => Some(bytes@),
        None => None,
    }
}

/// The ruling on a handshake read: `received` holds the bytes that were read
/// in place of the secret, or nothing if the read was not completed.
pub open spec fn verdict(received: Option<Seq<u8>>, secret: Seq<u8>) -> Result<
    (),
    HandshakeError,
> {
    match received {
        None => Err(HandshakeError::Incomplete),
        Some(bytes) => if bytes == secret {
            Ok(())
        } else {
            Err(HandshakeError::Mismatch)
        },
    }
}

/// What a read of exactly `n` bytes yields on a connection whose peer sent
/// `sent` and nothing more: the first `n` bytes, once that many are there.
pub open spec fn exact_read(sent: Seq<u8>, n: nat) -> Option<Seq<u8>> {
    if sent.len() >= n {
        Some(sent.take(n as int))
    } else {
        None
    }
}

/// Whether two byte strings are the same, byte for byte.
pub fn same_bytes(a: &[u8], b: &[u8]) -> (same: bool)
    ensures
        same == (a@ == b@),
{
    if a.len() != b.len() {
        return false;
    }
    let mut i: usize = 0;
    while i < a.len()
        invariant
            a@.len() == b@.len(),
            i <= a@.len(),
            a@.take(i as int) == b@.take(i as int),
        decreases a.len() - i,
    {
        if a[i] != b[i] {
            return false;
        }
        assert(a@.take(i + 1) =~= a@.take(i as int).push(a@[i as int]));
        assert(b@.take(i + 1) =~= b@.take(i as int).push(b@[i as int]));
        i += 1;
    }
    assert(a@ =~= a@.take(i as int));
    assert(b@ =~= b@.take(i as int));
    true
}

/// Rules on a freshly accepted tunnel connection. `received` is what a read
/// of exactly `secret.len()` bytes gave: the bytes, or nothing if the
/// connection closed or failed first.
pub fn validate_handshake(received: Option<&[u8]>, secret: &[u8]) -> (r: Result<
    (),
    HandshakeError,
>)
    ensures
        r == verdict(bytes_of(received), secret@),
        r is Ok <==> bytes_of(received) == Some(secret@),
{
    match received {
        None => Err(HandshakeError::Incomplete),
        Some(bytes) => {
            if same_bytes(bytes, secret) {
                Ok(())
            } else {
                Err(HandshakeError::Mismatch)
            }
        },
    }
}

/// A connection is admitted exactly when the first bytes it sends, as many
/// as the secret has, are the secret: sending the secret admits it, and
/// neither a shorter transmission nor one that starts otherwise does.
pub proof fn lemma_admitted_iff_secret_leads(sent: Seq<u8>, secret: Seq<u8>)
    ensures
        verdict(exact_read(sent, secret.len()), secret) is Ok <==> secret.is_prefix_of(sent),
        verdict(exact_read(secret, secret.len()), secret) is Ok,
        sent.len() < secret.len() ==> verdict(exact_read(sent, secret.len()), secret) == Err::<
            (),
            HandshakeError,
        >(HandshakeError::Incomplete),
        sent.len() >= secret.len() && !secret.is_prefix_of(sent) ==> verdict(
            exact_read(sent, secret.len()),
            secret,
        ) == Err::<(), HandshakeError>(HandshakeError::Mismatch),
{
    assert(secret.take(secret.len() as int) =~= secret);
    if sent.len() >= secret.len() {
        let head = sent.take(secret.len() as int);
        if head == secret {
            assert(secret.is_prefix_of(sent));
        }
        if secret.is_prefix_of(sent) {
            assert(head =~= secret);
        }
    }
}

/// A transmission other than the secret is refused, unless it goes on after
/// the secret: the bytes after it are then the first to be forwarded.
pub proof fn lemma_other_transmission_refused(sent: Seq<u8>, secret: Seq<u8>)
    requires
        sent != secret,
        !(secret.is_prefix_of(sent) && sent.len() > secret.len()),
    ensures
        verdict(exact_read(sent, secret.len()), secret) is Err,
{
    lemma_admitted_iff_secret_leads(sent, secret);
    if secret.is_prefix_of(sent) {
        assert(sent.len() == secret.len());
        assert(sent =~= secret);
    }
}

impl HandshakeError {
    /// The wording of the refusal, as characters.
    pub open spec fn text(self) -> Seq<char> {
        match self {
            HandshakeError::Incomplete => "Failed to read from tunnel stream"@,
            HandshakeError::Mismatch => "Invalid handshake from tunnel stream"@,
        }
    }

    /// A sentence that names the refusal.
    pub fn message(&self) -> (text: &'static str)
        ensures
            text@ == self.text(),
    {
        match self {
            HandshakeError::Incomplete => "Failed to read from tunnel stream",
            HandshakeError::Mismatch => "Invalid handshake from tunnel stream",
        }
    }
}

} // verus!
