//! The host's `IHostApplication` identity: the name it reports to plugins,
//! the host objects a plugin may ask it to create, and its answer to
//! interface-support queries.

use vstd::prelude::*;

use crate::constants::{K_INVALID_ARGUMENT, K_NOT_IMPLEMENTED, K_RESULT_FALSE};
use crate::helpers::{lemma_nul_index, nul_index, utf16_encode, utf16_units_of};

verus! {

broadcast use vstd::string::axiom_spec_iter;

/// Number of code units in a VST3 `String128`.
pub const STRING128_LEN: usize = 128;

/// The `String128` a host name is stored as: the first 127 UTF-16 code
/// units of the name, then zeros up to the end of the buffer, so the text
/// is always NUL-terminated.
pub open spec fn host_name_buffer(name: Seq<char>) -> Seq<u16> {
    let units = utf16_encode(name);
    Seq::new(
        STRING128_LEN as nat,
        |i: int|
            if i < STRING128_LEN - 1 && i < units.len() {
                units[i]
            } else {
                0u16
            },
    )
}

/// A character sequence without NUL encodes to code units without a zero.
proof fn lemma_encode_without_nul(s: Seq<char>)
    requires
        forall|i: int| 0 <= i < s.len() ==> s[i] != '\0',
    ensures
        forall|j: int| 0 <= j < utf16_encode(s).len() ==> utf16_encode(s)[j] != 0u16,
    decreases s.len(),
{
    if s.len() > 0 {
        let p = s.drop_last();
        assert forall|i: int| 0 <= i < p.len() implies p[i] != '\0' by {
            assert(p[i] == s[i]);
        }
        lemma_encode_without_nul(p);
        let c = s.last();
        assert(c == s[s.len() - 1]);
        assert(c != '\0');
        let u = c as u32;
        vstd::utf8::char_is_scalar(c);
        vstd::utf8::char_u32_cast(c, u);
        assert((0u32 as char) == '\0');
        assert(u != 0);
        assert((c as int) == u);
        assert((c as int) > 0);
        let v = c as int;
        let units = utf16_units_of(c);
        if v < 0x10000 {
            assert((v as u16) as int == v);
        } else {
            let hi = 0xD800 + (v - 0x10000) / 0x400;
            let lo = 0xDC00 + (v - 0x10000) % 0x400;
            assert(v <= 0x10FFFF);
            assert(0 <= (v - 0x10000) / 0x400 < 0x400);
            assert(0xD800 <= hi < 0x10000);
            assert(0xDC00 <= lo < 0x10000);
            assert((hi as u16) as int == hi);
            assert((lo as u16) as int == lo);
        }
        assert(forall|k: int| 0 <= k < units.len() ==> units[k] != 0u16);
        let e = utf16_encode(s);
        assert(e == utf16_encode(p) + units);
        assert forall|j: int| 0 <= j < e.len() implies e[j] != 0u16 by {
            if j < utf16_encode(p).len() {
                assert(e[j] == utf16_encode(p)[j]);
            } else {
                assert(e[j] == units[j - utf16_encode(p).len()]);
            }
        }
    }
}

/// The name a host reports reads back as the name it was given: the text
/// of its `String128` before the first NUL is the first 127 UTF-16 code
/// units of the name (all of them for a shorter name), for any name without
/// a NUL character; and the buffer always ends in a NUL.
pub proof fn lemma_host_name_reads_back(name: Seq<char>)
    requires
        forall|i: int| 0 <= i < name.len() ==> name[i] != '\0',
    ensures
        ({
            let buf = host_name_buffer(name);
            let units = utf16_encode(name);
            let n = if units.len() < 127 {
                units.len() as int
            } else {
                127
            };
            &&& buf.len() == STRING128_LEN
            &&& buf[STRING128_LEN - 1] == 0u16
            &&& nul_index(buf, 0u16) == n
            &&& buf.take(nul_index(buf, 0u16) as int) == units.take(n)
        }),
{
    let buf = host_name_buffer(name);
    let units = utf16_encode(name);
    let n = if units.len() < 127 {
        units.len() as int
    } else {
        127
    };
    lemma_encode_without_nul(name);
    assert forall|k: int| 0 <= k < n implies buf[k] != 0u16 by {
        assert(buf[k] == units[k]);
    }
    lemma_nul_index(buf, 0u16, n);
    assert(buf.take(n) =~= units.take(n));
}

/// The host objects a plugin may ask the host to create.
#[derive(Debug, Clone, Copy, PartialEq, Eq, Structural)]
pub enum HostObjectKind {
    /// An `IMessage`.
    Message,
    /// An `IAttributeList`.
    AttributeList,
}

/// The object `createInstance` creates for a class id and interface id, given
/// the interface ids of `IMessage` and `IAttributeList`: the class and the
/// interface must both name the same one of them.
pub open spec fn requested_object(
    cid: Seq<u8>,
    iid: Seq<u8>,
    message_iid: Seq<u8>,
    attribute_list_iid: Seq<u8>,
) -> Option<HostObjectKind> {
    if cid == message_iid && iid == message_iid {
        Some(HostObjectKind::Message)
    } else if cid == attribute_list_iid && iid == attribute_list_iid {
        Some(HostObjectKind::AttributeList)
    } else {
        None
    }
}

/// The host application object handed to a plugin's `initialize`.
pub struct HostApplication {
    name: [u16; 128],
}

/// The UTF-16 code units of one character.
fn encode_char(c: char) -> (units: (u16, Option<u16>))
    ensures
        units.1 is None ==> utf16_units_of(c) == seq![units.0],
        units.1 matches Some(low) ==> utf16_units_of(c) == seq![units.0, low],
{
    let v = c as u32;
    if v < 0x10000 {
        (v as u16, None)
    } else {
        let w = v - 0x10000;
        ((0xD800 + w / 0x400) as u16, Some((0xDC00 + w % 0x400) as u16))
    }
}

/// Equality of two 16-byte ids.
fn same_id(a: &[u8; 16], b: &[u8; 16]) -> (r: bool)
    ensures
        r == (a@ == b@),
{
    let mut i: usize = 0;
    while i < 16
        invariant
            i <= 16,
            a@.len() == 16,
            b@.len() == 16,
            forall|k: int| 0 <= k < i ==> a@[k] == b@[k],
        decreases 16 - i,
    {
        if a[i] != b[i] {
            return false;
        }
        i = i + 1;
    }
    assert(a@ =~= b@);
    true
}

impl HostApplication {
    /// The stored name as a `String128`.
    pub closed spec fn name_units(&self) -> Seq<u16> {
        self.name@
    }

    /// A host application that reports `name`, truncated to the first 127
    /// UTF-16 code units so that the buffer stays NUL-terminated.
    pub fn new(name: &str) -> (h: HostApplication)
        ensures
            h.name_units() == host_name_buffer(name@),
    {
        let mut buf: [u16; 128] = [0u16; 128];
        let mut len: usize = 0;
        let ghost mut seen: Seq<char> = Seq::empty();
        for c in it: name.chars()
            invariant
                seen == it.seq().take(it.index() as int),
                it.seq() == name@,
                len <= 127,
                len == (if utf16_encode(seen).len() < 127 {
                    utf16_encode(seen).len()
                } else {
                    127
                }),
                forall|i: int| 0 <= i < len ==> buf@[i] == utf16_encode(seen)[i],
                forall|i: int| len <= i < 128 ==> buf@[i] == 0u16,
        {
            let ghost before = seen;
            proof {
                seen = seen.push(c);
                assert(seen.drop_last() =~= before);
            }
            let (high, low) = encode_char(c);
            if len < 127 {
                buf[len] = high;
                len = len + 1;
            }
            match low {
                Some(l) => {
                    if len < 127 {
                        buf[len] = l;
                        len = len + 1;
                    }
                },
                None => {},
            }
        }
        proof {
            assert(seen =~= name@);
            assert(buf@ =~= host_name_buffer(name@));
        }
        HostApplication { name: buf }
    }

    /// `IHostApplication::getName`: the stored `String128`, or
    /// `K_INVALID_ARGUMENT` when the caller gave no buffer to fill.
    pub fn get_name(&self, out_present: bool) -> (r: Result<[u16; 128], i32>)
        ensures
            out_present ==> (r matches Ok(buf) && buf@ == self.name_units()),
            !out_present ==> r == Err::<[u16; 128], i32>(K_INVALID_ARGUMENT),
    {
        if out_present {
            Ok(self.name)
        } else {
            Err(K_INVALID_ARGUMENT)
        }
    }

    /// `IHostApplication::createInstance`: which host object to create for a
    /// class id and an interface id (`None` where the plugin passed a null
    /// pointer), given the interface ids of `IMessage` and `IAttributeList`.
    /// `K_INVALID_ARGUMENT` when an id or the result slot is missing,
    /// `K_NOT_IMPLEMENTED` when the host has no such object.
    pub fn create_instance(
        &self,
        cid: Option<[u8; 16]>,
        iid: Option<[u8; 16]>,
        result_slot_present: bool,
        message_iid: [u8; 16],
        attribute_list_iid: [u8; 16],
    ) -> (r: Result<HostObjectKind, i32>)
        ensures
            match (cid, iid) {
                (Some(c), Some(i)) if result_slot_present => match requested_object(
                    c@,
                    i@,
                    message_iid@,
                    attribute_list_iid@,
                ) {
                    Some(kind) => r == Ok::<HostObjectKind, i32>(kind),
                    None => r == Err::<HostObjectKind, i32>(K_NOT_IMPLEMENTED),
                },
                _ => r == Err::<HostObjectKind, i32>(K_INVALID_ARGUMENT),
            },
    {
        match (cid, iid) {
            (Some(c), Some(i)) if result_slot_present => {
                if same_id(&c, &message_iid) && same_id(&i, &message_iid) {
                    Ok(HostObjectKind::Message)
                } else if same_id(&c, &attribute_list_iid) && same_id(&i, &attribute_list_iid) {
                    Ok(HostObjectKind::AttributeList)
                } else {
                    Err(K_NOT_IMPLEMENTED)
                }
            },
            _ => Err(K_INVALID_ARGUMENT),
        }
    }

    /// `IPlugInterfaceSupport::isPlugInterfaceSupported`: the host does not
    /// track which of its interfaces it implements, so the answer is always
    /// `K_RESULT_FALSE`.
    pub fn is_plug_interface_supported(&self, iid: Option<[u8; 16]>) -> (r: i32)
        ensures
            r == K_RESULT_FALSE,
    {
        K_RESULT_FALSE
    }
}

} // verus!
