use vstd::prelude::*;

verus! {

/// A 32-byte account identity (an ed25519 public key).
#[derive(Clone, Copy, Debug)]
pub struct Pubkey {
    pub bytes: [u8; 32],
}

impl PartialEq for Pubkey {
    fn eq(&self, o: &Pubkey) -> (r: bool) {
        bytes_equal(&self.bytes, &o.bytes)
    }
}

impl vstd::std_specs::cmp::PartialEqSpecImpl for Pubkey {
    open spec fn obeys_eq_spec() -> bool {
        true
    }

    open spec fn eq_spec(&self, o: &Pubkey) -> bool {
        self.bytes@ == o.bytes@
    }
}

impl Eq for Pubkey {}

impl Pubkey {
    pub fn new(bytes: [u8; 32]) -> (r: Pubkey)
        ensures
            r.bytes == bytes,
    {
        Pubkey { bytes }
    }

    /// The all-zero identity, which marks an unbound ledger entry.
    pub fn zero() -> (r: Pubkey)
        ensures
            r.is_zero_spec(),
    {
        let bytes: [u8; 32] = [0u8; 32];
        Pubkey { bytes }
    }

    pub open spec fn is_zero_spec(&self) -> bool {
        forall|i: int| 0 <= i < 32 ==> #[trigger] self.bytes@[i] == 0
    }

    /// Whether every byte is zero.
    pub fn is_zero(&self) -> (r: bool)
        ensures
            r == self.is_zero_spec(),
    {
        let mut i: usize = 0;
        while i < 32
            invariant
                0 <= i <= 32,
                forall|j: int| 0 <= j < i ==> #[trigger] self.bytes@[j] == 0,
            decreases 32 - i,
        {
            if self.bytes[i] != 0 {
                return false;
            }
            i += 1;
        }
        true
    }

    pub fn to_bytes(&self) -> (r: [u8; 32])
        ensures
            r == self.bytes,
    {
        self.bytes
    }
}

/// Whether `key` equals one of the keys of `trusted`, byte for byte.
pub open spec fn is_trusted_key(trusted: Seq<Pubkey>, key: Seq<u8>) -> bool {
    exists|i: int| 0 <= i < trusted.len() && (#[trigger] trusted[i]).bytes@ == key
}

/// The ordered set of public keys whose signatures authorize privileged operations.
#[derive(Clone, Debug)]
pub struct AdminRegistry {
    pub keys: Vec<Pubkey>,
}

impl View for AdminRegistry {
    type V = Seq<Pubkey>;

    open spec fn view(&self) -> Seq<Pubkey> {
        self.keys@
    }
}

impl AdminRegistry {
    pub fn new(keys: Vec<Pubkey>) -> (r: AdminRegistry)
        ensures
            r.keys@ == keys@,
    {
        AdminRegistry { keys }
    }

    /// The registry of the deployed program's admins.
    pub fn predefined() -> (r: AdminRegistry)
        ensures
            r.keys@ == predefined_admins(),
    {
        let mut keys: Vec<Pubkey> = Vec::new();
        keys.push(Pubkey { bytes: ADMIN_0 });
        keys.push(Pubkey { bytes: ADMIN_1 });
        keys.push(Pubkey { bytes: ADMIN_2 });
        proof {
            assert(keys@ =~= predefined_admins());
        }
        AdminRegistry { keys }
    }

    /// Whether `key` is one of the registry's keys.
    pub fn contains(&self, key: &[u8]) -> (r: bool)
        ensures
            r == is_trusted_key(self.keys@, key@),
    {
        let mut i: usize = 0;
        while i < self.keys.len()
            invariant
                0 <= i <= self.keys@.len(),
                forall|j: int| 0 <= j < i ==> (#[trigger] self.keys@[j]).bytes@ != key@,
            decreases self.keys@.len() - i,
        {
            if bytes_equal(&self.keys[i].bytes, key) {
                return true;
            }
            i += 1;
        }
        false
    }
}

/// Byte-for-byte equality of two slices.
pub fn bytes_equal(a: &[u8], b: &[u8]) -> (r: bool)
    ensures
        r == (a@ == b@),
{
    if a.len() != b.len() {
        return false;
    }
    let mut i: usize = 0;
    while i < a.len()
        invariant
            0 <= i <= a@.len(),
            b@.len() == a@.len(),
            forall|j: int| 0 <= j < i ==> a@[j] == b@[j],
        decreases a@.len() - i,
    {
        if a[i] != b[i] {
            return false;
        }
        i += 1;
    }
    proof {
        assert(a@ =~= b@);
    }
    true
}

pub const ADMIN_0: [u8; 32] = [
    72, 244, 89, 234, 53, 240, 33, 70, 196, 88, 202, 201, 118, 63, 75, 17, 5, 114, 85, 203, 238,
    60, 78, 69, 173, 238, 195, 219, 139, 42, 27, 55,
];

pub const ADMIN_1: [u8; 32] = [
    182, 123, 158, 151, 209, 226, 145, 45, 108, 200, 199, 255, 160, 134, 61, 36, 255, 242, 132, 95,
    133, 211, 106, 212, 98, 209, 65, 72, 33, 21, 136, 32,
];

pub const ADMIN_2: [u8; 32] = [
    99, 191, 236, 200, 153, 110, 60, 25, 220, 217, 36, 175, 226, 207, 34, 200, 65, 3, 194, 36, 24,
    47, 8, 214, 195, 12, 231, 193, 77, 168, 25, 226,
];

/// The treasury identity.
pub const TREASURY: [u8; 32] = [
    48, 9, 89, 123, 106, 114, 131, 251, 50, 173, 254, 250, 10, 80, 160, 84, 143, 100, 81, 249, 134,
    112, 30, 213, 50, 166, 239, 78, 53, 175, 188, 85,
];

pub open spec fn predefined_admins() -> Seq<Pubkey> {
    seq![Pubkey { bytes: ADMIN_0 }, Pubkey { bytes: ADMIN_1 }, Pubkey { bytes: ADMIN_2 }]
}

/// Whether `admin` is one of the deployed program's admins.
pub fn assert_eq_admin(admin: Pubkey) -> (r: bool)
    ensures
        r == is_trusted_key(predefined_admins(), admin.bytes@),
{
    let registry = AdminRegistry::predefined();
    registry.contains(&admin.bytes)
}

} // verus!
