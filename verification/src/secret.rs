//! The SSH handshake secret.

use vstd::prelude::*;

verus! {

/// The hexadecimal digit of `d`, for `d` under sixteen.
pub open spec fn hex_digit_of(d: nat) -> char {
    if d < 10 {
        ('0' as nat + d) as char
    } else {
        ('a' as nat + d - 10) as char
    }
}

/// `bytes` in hexadecimal: two lower-case digits for each byte, the upper half first.
pub open spec fn hex_of(bytes: Seq<u8>) -> Seq<char>
    decreases bytes.len(),
{
    if bytes.len() == 0 {
        Seq::empty()
    } else {
        hex_of(bytes.drop_last()) + seq![
            hex_digit_of(bytes.last() as nat / 16),
            hex_digit_of(bytes.last() as nat % 16),
        ]
    }
}

fn hex_digit(d: u8) -> (c: char)
    requires
        d < 16,
    ensures
        c == hex_digit_of(d as nat),
{
    if d < 10 {
        ('0' as u8 + d) as char
    } else {
        ('a' as u8 + (d - 10)) as char
    }
}

/// The hex secret for the SSH handshake HMAC that random bytes give.
pub fn generate_secret(bytes: &[u8; 32]) -> (secret: String)
    ensures
        secret@ == hex_of(bytes@),
        secret@.len() == 64,
{
    let mut secret = String::new();
    let mut i: usize = 0;
    assert(bytes@.take(0) =~= Seq::empty());
    while i < 32
        invariant
            i <= 32,
            secret@ == hex_of(bytes@.take(i as int)),
        decreases 32 - i,
    {
        let b: u8 = bytes[i];
        let ghost before = secret@;
        secret.push(hex_digit(b / 16));
        secret.push(hex_digit(b % 16));
        proof {
            assert(bytes@.take(i + 1).drop_last() =~= bytes@.take(i as int));
            assert(secret@ =~= before + seq![
                hex_digit_of(b as nat / 16),
                hex_digit_of(b as nat % 16),
            ]);
        }
        i = i + 1;
    }
    assert(bytes@.take(i as int) =~= bytes@);
    proof {
        secret_is_hex(bytes@);
    }
    secret
}

// ---------------------------------------------------------------------------
// Laws
// ---------------------------------------------------------------------------

/// The number that a hexadecimal digit stands for.
pub open spec fn hex_digit_value(c: char) -> int {
    if c <= '9' {
        c as int - '0' as int
    } else {
        c as int - 'a' as int + 10
    }
}

/// Whether `c` is a lower-case hexadecimal digit.
pub open spec fn is_hex_digit(c: char) -> bool {
    '0' <= c && c <= '9' || 'a' <= c && c <= 'f'
}

/// A secret has two characters for each byte, and all are lower-case hexadecimal
/// digits, so that it needs no quoting on a command line.
pub proof fn secret_is_hex(bytes: Seq<u8>)
    ensures
        hex_of(bytes).len() == 2 * bytes.len(),
        forall|i: int| 0 <= i < hex_of(bytes).len() ==> is_hex_digit(#[trigger] hex_of(bytes)[i]),
    decreases bytes.len(),
{
    if bytes.len() > 0 {
        secret_is_hex(bytes.drop_last());
        let head = hex_of(bytes.drop_last());
        assert forall|i: int| 0 <= i < hex_of(bytes).len() implies is_hex_digit(
            #[trigger] hex_of(bytes)[i],
        ) by {
            if i < head.len() {
                assert(is_hex_digit(head[i]));
            }
        }
    }
}

/// Different random bytes give different secrets: nothing of them is lost.
pub proof fn secret_keeps_the_bytes(one: Seq<u8>, other: Seq<u8>)
    requires
        hex_of(one) == hex_of(other),
    ensures
        one == other,
    decreases one.len(),
{
    secret_is_hex(one);
    secret_is_hex(other);
    if one.len() > 0 {
        let text = hex_of(one);
        let n = text.len() as int;
        let head_one = hex_of(one.drop_last());
        let head_other = hex_of(other.drop_last());
        secret_is_hex(one.drop_last());
        secret_is_hex(other.drop_last());
        assert(head_one =~= text.take(n - 2));
        assert(head_other =~= text.take(n - 2));
        secret_keeps_the_bytes(one.drop_last(), other.drop_last());
        let a = one.last();
        let b = other.last();
        assert(text[n - 2] == hex_digit_of(a as nat / 16));
        assert(text[n - 1] == hex_digit_of(a as nat % 16));
        assert(text[n - 2] == hex_digit_of(b as nat / 16));
        assert(text[n - 1] == hex_digit_of(b as nat % 16));
        assert(hex_digit_value(text[n - 2]) == a / 16 && hex_digit_value(text[n - 2]) == b / 16);
        assert(hex_digit_value(text[n - 1]) == a % 16 && hex_digit_value(text[n - 1]) == b % 16);
        assert(a == b);
        assert(one =~= one.drop_last().push(a));
        assert(other =~= other.drop_last().push(b));
    } else {
        assert(one =~= other);
    }
}

/// Each byte is written as two digits, in the order of the bytes: the digits `0123456789abcdef`
/// stand for the numbers up to fifteen, and the upper half of the byte comes first.
pub proof fn secret_writes_each_byte(bytes: Seq<u8>, i: int)
    requires
        0 <= i < bytes.len(),
    ensures
        hex_of(bytes).len() == 2 * bytes.len(),
        hex_of(bytes)[2 * i] == "0123456789abcdef"@[bytes[i] as int / 16],
        hex_of(bytes)[2 * i + 1] == "0123456789abcdef"@[bytes[i] as int % 16],
    decreases bytes.len(),
{
    secret_is_hex(bytes);
    secret_is_hex(bytes.drop_last());
    if i < bytes.len() - 1 {
        secret_writes_each_byte(bytes.drop_last(), i);
        assert(hex_of(bytes)[2 * i] == hex_of(bytes.drop_last())[2 * i]);
        assert(hex_of(bytes)[2 * i + 1] == hex_of(bytes.drop_last())[2 * i + 1]);
    } else {
        lemma_hex_digits(bytes[i] as nat / 16);
        lemma_hex_digits(bytes[i] as nat % 16);
    }
}

proof fn lemma_hex_digits(d: nat)
    requires
        d < 16,
    ensures
        hex_digit_of(d) == "0123456789abcdef"@[d as int],
{
    reveal_strlit("0123456789abcdef");
}

/// Different random bytes give different secrets, and every secret has sixty-four digits.
pub proof fn secrets_tell_random_bytes_apart(
    one: [u8; 32],
    other: [u8; 32],
    secret: String,
    other_secret: String,
)
    requires
        call_ensures(generate_secret, (&one,), secret),
        call_ensures(generate_secret, (&other,), other_secret),
    ensures
        secret@.len() == 64,
        secret@ == other_secret@ ==> one@ == other@,
{
    if secret@ == other_secret@ {
        secret_keeps_the_bytes(one@, other@);
    }
}

}
