//! The safe entity: a passphrase, a location and a plaintext content
//! buffer.
//!
//! The buffer holds plaintext whenever it is in memory; ciphertext exists
//! only as the result of [`SmnSafe::encrypt_content`] and as the argument
//! of [`SmnSafe::load_ciphertext`].  Reading and writing the bytes at the
//! location is left to the caller, which hands whole files in and out.

use vstd::prelude::*;

use crate::crypto::{decrypt_bytes, encrypt_bytes, encrypted};
use vstd::string::StringExecFns;

verus! {

/// The mathematical value of a safe: its passphrase, location and content.
pub ghost struct SafeView {
    pub key: Seq<char>,
    pub location: Seq<char>,
    pub content: Seq<u8>,
}

/// A safe.  The passphrase is held only in memory and never persisted; the
/// location is a path the safe does not own; the content buffer is owned
/// and holds plaintext.
pub struct SmnSafe {
    key: String,
    location: String,
    content: Vec<u8>,
}

impl View for SmnSafe {
    type V = SafeView;

    closed spec fn view(&self) -> SafeView {
        SafeView { key: self.key@, location: self.location@, content: self.content@ }
    }
}

impl SmnSafe {
    /// Create a safe with the given passphrase and location and empty
    /// content.
    pub fn new(key: String, location: String) -> (r: Self)
        ensures
            r@.key == key@,
            r@.location == location@,
            r@.content == Seq::<u8>::empty(),
    {
        SmnSafe { key, location, content: Vec::new() }
    }

    /// The current passphrase.
    pub fn get_key(&self) -> (r: &str)
        ensures
            r@ == self@.key,
    {
        self.key.as_str()
    }

    /// The current location.
    pub fn get_location(&self) -> (r: &str)
        ensures
            r@ == self@.location,
    {
        self.location.as_str()
    }

    /// Point the safe at another location; passphrase and content stay as
    /// they are.
    pub fn set_location(&mut self, location: String)
        ensures
            final(self)@.location == location@,
            final(self)@.key == old(self)@.key,
            final(self)@.content == old(self)@.content,
    {
        self.location = location;
    }

    /// The current plaintext content.
    pub fn get_content(&self) -> (r: &[u8])
        ensures
            r@ == self@.content,
    {
        self.content.as_slice()
    }

    /// Replace the content unconditionally; passphrase and location stay
    /// as they are.
    pub fn set_content(&mut self, content: Vec<u8>)
        ensures
            final(self)@.content == content@,
            final(self)@.key == old(self)@.key,
            final(self)@.location == old(self)@.location,
    {
        self.content = content;
    }

    /// The bytes to persist at the location: the content encrypted under
    /// the safe's passphrase.  The safe itself is left unchanged, so saving
    /// is idempotent with respect to the in-memory value.
    pub fn encrypt_content(&self) -> (r: Vec<u8>)
        ensures
            r@ == encrypted(self@.content, self@.key),
            r@.len() == self@.content.len(),
    {
        encrypt_bytes(self.key.as_str(), self.content.as_slice())
    }

    /// Take the bytes read from the location and overwrite the content
    /// with their decryption under the safe's passphrase.  A wrong
    /// passphrase is not detected: the call succeeds and the content is
    /// then unrelated bytes.
    pub fn load_ciphertext(&mut self, ciphertext: &[u8])
        ensures
            final(self)@.content == encrypted(ciphertext@, old(self)@.key),
            final(self)@.key == old(self)@.key,
            final(self)@.location == old(self)@.location,
    {
        let plaintext = decrypt_bytes(self.key.as_str(), ciphertext);
        self.content = plaintext;
    }

    /// Render the passphrase and the content for display.
    pub fn to_string(&self) -> (r: String)
        ensures
            r@ == rendered(self@.key, self@.content),
    {
        proof {
            reveal_strlit("Key: ");
            reveal_strlit(", \nContent: \n");
            reveal_strlit("[");
            reveal_strlit("]");
            reveal_strlit(", ");
        }
        let mut out = String::new();
        out.append("Key: ");
        out.append(self.key.as_str());
        out.append(", \nContent: \n");
        out.append("[");
        let n = self.content.len();
        assert(self.content@.take(0) =~= Seq::<u8>::empty());
        for i in 0..n
            invariant
                n == self.content@.len(),
                out@ =~= "Key: "@ + self.key@ + ", \nContent: \n"@ + seq!['[']
                    + rendered_bytes(self.content@.take(i as int)),
                "Key: "@ =~= seq!['K', 'e', 'y', ':', ' '],
                ", \nContent: \n"@ =~= seq![',', ' ', '\n', 'C', 'o', 'n', 't', 'e', 'n', 't', ':', ' ', '\n'],
                "["@ =~= seq!['['],
                "]"@ =~= seq![']'],
                ", "@ =~= seq![',', ' '],
        {
            if i > 0 {
                out.append(", ");
            }
            append_decimal(&mut out, self.content[i]);
            proof {
                let s = self.content@;
                assert(s.take(i as int + 1).drop_last() =~= s.take(i as int));
                assert(s.take(i as int + 1).last() == s[i as int]);
                if i == 0 {
                    assert(rendered_bytes(s.take(1)) =~= decimal(s[0]));
                }
            }
        }
        out.append("]");
        proof {
            assert(self.content@.take(n as int) =~= self.content@);
            assert(out@ =~= rendered(self@.key, self@.content));
        }
        out
    }
}

/// The digit character for a value below ten.
pub open spec fn digit(d: nat) -> char
    recommends
        d < 10,
{
    if d == 0 {
        '0'
    } else if d == 1 {
        '1'
    } else if d == 2 {
        '2'
    } else if d == 3 {
        '3'
    } else if d == 4 {
        '4'
    } else if d == 5 {
        '5'
    } else if d == 6 {
        '6'
    } else if d == 7 {
        '7'
    } else if d == 8 {
        '8'
    } else {
        '9'
    }
}

/// The decimal rendering of a byte, without leading zeros.
pub open spec fn decimal(n: u8) -> Seq<char> {
    if n < 10 {
        seq![digit(n as nat)]
    } else if n < 100 {
        seq![digit((n / 10) as nat), digit((n % 10) as nat)]
    } else {
        seq![digit((n / 100) as nat), digit(((n / 10) % 10) as nat), digit((n % 10) as nat)]
    }
}

/// The byte values rendered in decimal and joined with a comma and a
/// space.
pub open spec fn rendered_bytes(s: Seq<u8>) -> Seq<char>
    decreases s.len(),
{
    if s.len() == 0 {
        Seq::<char>::empty()
    } else if s.len() == 1 {
        decimal(s[0])
    } else {
        rendered_bytes(s.drop_last()) + seq![',', ' '] + decimal(s.last())
    }
}

/// The display rendering of a safe: the passphrase, then the content bytes
/// in decimal between brackets.
pub open spec fn rendered(key: Seq<char>, content: Seq<u8>) -> Seq<char> {
    seq!['K', 'e', 'y', ':', ' '] + key
        + seq![',', ' ', '\n', 'C', 'o', 'n', 't', 'e', 'n', 't', ':', ' ', '\n'] + seq!['[']
        + rendered_bytes(content) + seq![']']
}

/// The string of one digit value.
fn digit_str(d: u8) -> (r: &'static str)
    requires
        d < 10,
    ensures
        r@ =~= seq![digit(d as nat)],
{
    proof {
        reveal_strlit("0");
        reveal_strlit("1");
        reveal_strlit("2");
        reveal_strlit("3");
        reveal_strlit("4");
        reveal_strlit("5");
        reveal_strlit("6");
        reveal_strlit("7");
        reveal_strlit("8");
        reveal_strlit("9");
    }
    if d == 0 {
        "0"
    } else if d == 1 {
        "1"
    } else if d == 2 {
        "2"
    } else if d == 3 {
        "3"
    } else if d == 4 {
        "4"
    } else if d == 5 {
        "5"
    } else if d == 6 {
        "6"
    } else if d == 7 {
        "7"
    } else if d == 8 {
        "8"
    } else {
        "9"
    }
}

/// Append the decimal rendering of a byte.
fn append_decimal(out: &mut String, n: u8)
    ensures
        final(out)@ == old(out)@ + decimal(n),
{
    if n >= 100 {
        out.append(digit_str(n / 100));
        out.append(digit_str((n / 10) % 10));
        out.append(digit_str(n % 10));
        assert(out@ =~= old(out)@ + decimal(n));
    } else if n >= 10 {
        out.append(digit_str(n / 10));
        out.append(digit_str(n % 10));
        assert(out@ =~= old(out)@ + decimal(n));
    } else {
        out.append(digit_str(n));
        assert(out@ =~= old(out)@ + decimal(n));
    }
}

} // verus!
