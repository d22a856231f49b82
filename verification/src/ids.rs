//! Thread identifiers and the UUIDs behind them.
use crate::text::join3;
use vstd::arithmetic::power::pow;
use vstd::prelude::*;

verus! {

/// The lower-case hexadecimal digit of value `n`.
pub open spec fn hex_digit(n: int) -> char {
    if n < 10 {
        ('0' as u32 + n) as char
    } else {
        ('a' as u32 + n - 10) as char
    }
}

/// The `k`-th of the 32 hexadecimal digits of `v`, counted from the most significant one.
pub open spec fn nibble(v: u128, k: int) -> int {
    (v as int / pow(16, (31 - k) as nat)) % 16
}

/// Where the hyphens of a hyphenated UUID stand.
pub open spec fn hyphen_at(i: int) -> bool {
    i == 8 || i == 13 || i == 18 || i == 23
}

/// How many hyphens stand before position `i` of a hyphenated UUID.
pub open spec fn hyphens_before(i: int) -> int {
    if i <= 8 {
        0
    } else if i <= 13 {
        1
    } else if i <= 18 {
        2
    } else if i <= 23 {
        3
    } else {
        4
    }
}

/// The lower-case hyphenated form of a UUID.
pub open spec fn hyphenated(v: u128) -> Seq<char> {
    Seq::new(
        36,
        |i: int|
            if hyphen_at(i) {
                '-'
            } else {
                hex_digit(nibble(v, i - hyphens_before(i)))
            },
    )
}

/// What reading a text as a UUID gives: its value, or the error in its debug form.
pub uninterp spec fn uuid_read(input: Seq<char>) -> Result<u128, Seq<char>>;

/// The version 5 UUID of a name in the OID namespace.
pub uninterp spec fn uuid_of_oid_name(name: Seq<u8>) -> u128;

/// Reads a UUID with `uuid::Uuid::parse_str`. The result is a function of the text alone, and a
/// lower-case hyphenated UUID is read back as its own value.
#[verifier::external_body]
fn read_uuid(input: &str) -> (res: Result<u128, String>)
    ensures
        res is Ok ==> uuid_read(input@) is Ok && uuid_read(input@)->Ok_0 == res->Ok_0,
        res is Err ==> uuid_read(input@) is Err && uuid_read(input@)->Err_0 == res->Err_0@,
        forall|v: u128| input@ == #[trigger] hyphenated(v) ==> res is Ok && res->Ok_0 == v,
{
    match uuid::Uuid::parse_str(input) {
        Ok(value) => Ok(value.as_u128()),
        Err(error) => Err(format!("{error:?}")),
    }
}

/// Writes a UUID with its `Display`, which is the lower-case hyphenated form.
#[verifier::external_body]
fn write_uuid(value: u128) -> (res: String)
    ensures
        res@ == hyphenated(value),
{
    uuid::Uuid::from_u128(value).to_string()
}

/// Computes `uuid::Uuid::new_v5` of a name in the OID namespace: a hash of the name's bytes.
#[verifier::external_body]
fn oid_name_uuid(name: &Vec<u8>) -> (res: u128)
    ensures
        res == uuid_of_oid_name(name@),
{
    uuid::Uuid::new_v5(&uuid::Uuid::NAMESPACE_OID, name).as_u128()
}

/// Draws `uuid::Uuid::new_v4`: random but for the version digit, which is 4, and the variant
/// digit, whose two upper bits are `10`.
#[verifier::external_body]
fn random_uuid() -> (res: u128)
    ensures
        nibble(res, 12) == 4,
        8 <= nibble(res, 16) < 12,
{
    uuid::Uuid::new_v4().as_u128()
}

/// The identity of a thread (and of the agent that runs in it).
#[derive(Clone, Copy, Debug, PartialEq, Eq, Structural)]
pub struct ThreadId {
    pub value: u128,
}

impl ThreadId {
    /// The text of this identifier.
    pub open spec fn text(self) -> Seq<char> {
        hyphenated(self.value)
    }

    /// Reads a thread identifier; the error is the debug form of what was wrong with the text.
    pub fn from_string(id: &str) -> (res: Result<ThreadId, String>)
        ensures
            match res {
                Ok(thread_id) => uuid_read(id@) == Ok::<u128, Seq<char>>(thread_id.value),
                Err(error) => uuid_read(id@) == Err::<u128, Seq<char>>(error@),
            },
            forall|thread_id: ThreadId|
                id@ == #[trigger] thread_id.text() ==> res == Ok::<ThreadId, String>(thread_id),
    {
        match read_uuid(id) {
            Ok(value) => Ok(ThreadId { value }),
            Err(error) => Err(error),
        }
    }

    /// Writes this identifier.
    pub fn to_text(&self) -> (res: String)
        ensures
            res@ == self.text(),
    {
        write_uuid(self.value)
    }
}

/// The stable name of a recovered item: `recovered-` and the UUID of `name`.
pub fn recovered_name(name: &Vec<u8>) -> (res: String)
    ensures
        res@ == "recovered-"@ + hyphenated(uuid_of_oid_name(name@)),
{
    let id: String = write_uuid(oid_name_uuid(name));
    let res: String = join3("recovered-", id.as_str(), "");
    proof {
        reveal_strlit("");
        assert(res@ =~= "recovered-"@ + id@);
    }
    res
}

/// A fresh submission id for a turn that the session starts by itself: a random UUID.
pub fn fresh_sub_id() -> (res: String)
    ensures
        exists|v: u128|
            res@ == #[trigger] hyphenated(v) && nibble(v, 12) == 4 && 8 <= nibble(v, 16) < 12,
{
    write_uuid(random_uuid())
}

/// A written thread identifier has 36 characters, each a hyphen or a lower-case hexadecimal digit.
pub proof fn law_thread_id_text_is_plain(id: ThreadId)
    ensures
        id.text().len() == 36,
        forall|i: int|
            0 <= i < 36 ==> {
                let c = #[trigger] id.text()[i];
                c == '-' || ('0' <= c <= '9') || ('a' <= c <= 'f')
            },
{
    assert forall|i: int| 0 <= i < 36 implies ({
        let c = #[trigger] id.text()[i];
        c == '-' || ('0' <= c <= '9') || ('a' <= c <= 'f')
    }) by {
        if !hyphen_at(i) {
            let n = nibble(id.value, i - hyphens_before(i));
            assert(0 <= n < 16);
            assert(id.text()[i] == hex_digit(n));
        }
    }
}

} // verus!
