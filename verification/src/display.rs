use vstd::prelude::*;

verus! {

/// The 128-bit value of the UUID that `uuid::Uuid::new_v5` derives from a
/// namespace UUID (as a 128-bit value) and a name.
pub uninterp spec fn uuid_v5(namespace: u128, name: Seq<u8>) -> u128;

/// The version field of a UUID given as a 128-bit value.
pub open spec fn uuid_version(uuid: u128) -> u128 {
    (uuid >> 76u128) & 0xfu128
}

/// The two high bits of the variant field of a UUID given as a 128-bit value.
pub open spec fn uuid_variant_bits(uuid: u128) -> u128 {
    (uuid >> 62u128) & 0x3u128
}

/// The DNS namespace UUID of RFC 9562.
pub open spec fn spec_namespace_dns() -> u128 {
    0x6ba7b810_9dad_11d1_80b4_00c04fd430c8u128
}

/// The DNS namespace UUID of RFC 9562 (`uuid::Uuid::NAMESPACE_DNS`), as a
/// 128-bit value.
pub fn namespace_dns() -> (r: u128)
    ensures
        r == spec_namespace_dns(),
{
    0x6ba7b810_9dad_11d1_80b4_00c04fd430c8u128
}

/// `uuid::Uuid::new_v5`, with both UUIDs taken as 128-bit values. Its result
/// is named by `uuid_v5`; the crate's source sets the version field to 5 and
/// the variant to RFC 4122 (high bits `10`) on every result.
#[verifier::external_body]
fn new_v5(namespace: u128, name: &[u8]) -> (r: u128)
    ensures
        r == uuid_v5(namespace, name@),
        uuid_version(r) == 5,
        uuid_variant_bits(r) == 2,
{
    uuid::Uuid::new_v5(&uuid::Uuid::from_u128(namespace), name).as_u128()
}

/// The name from which the main screen's UUID is derived.
pub open spec fn spec_main_screen_name() -> Seq<u8> {
    seq![
        103u8, 112u8, 117u8, 105u8, 45u8, 105u8, 111u8, 115u8, 45u8, 109u8,
        97u8, 105u8, 110u8, 45u8, 115u8, 99u8, 114u8, 101u8, 101u8, 110u8,
    ]
}

/// The main screen's UUID: version 5, in the DNS namespace, named
/// "gpui-ios-main-screen".
pub open spec fn spec_main_screen_uuid() -> u128 {
    uuid_v5(spec_namespace_dns(), spec_main_screen_name())
}

/// The display id of the device's built-in screen.
pub const MAIN_SCREEN_ID: u32 = 1;

/// What identifies the device's built-in screen, the only display an app sees.
#[derive(Debug, Clone, Copy, PartialEq, Eq, Structural)]
pub struct ScreenIdentity {
    pub id: u32,
    pub uuid: u128,
}

/// Why the main screen could not be read.
#[derive(Debug, Clone, Copy, PartialEq, Eq, Structural)]
pub enum DisplayError {
    /// The screen is read off the main thread, where UIKit forbids it.
    NotOnMainThread,
}

impl DisplayError {
    /// The message reported for this error.
    pub fn message(&self) -> (r: &'static str)
        ensures
            r@ == "IosDisplay must be created on the main thread"@,
    {
        "IosDisplay must be created on the main thread"
    }
}

/// The identity of the built-in screen, given the UUID derived for it.
pub fn main_screen_from_uuid(uuid: u128) -> (s: ScreenIdentity)
    ensures
        s.id == MAIN_SCREEN_ID,
        s.uuid == uuid,
{
    ScreenIdentity { id: MAIN_SCREEN_ID, uuid }
}

/// The identity of the main screen, which can only be read on the main thread.
pub fn main_screen_identity(on_main_thread: bool) -> (r: Result<ScreenIdentity, DisplayError>)
    ensures
        r is Ok <==> on_main_thread,
        r matches Ok(s) ==> s.id == MAIN_SCREEN_ID && s.uuid == spec_main_screen_uuid(),
        r matches Ok(s) ==> uuid_version(s.uuid) == 5 && uuid_variant_bits(s.uuid) == 2,
        r matches Err(e) ==> e == DisplayError::NotOnMainThread,
{
    if !on_main_thread {
        return Err(DisplayError::NotOnMainThread);
    }
    let name: [u8; 20] = [
        103u8, 112u8, 117u8, 105u8, 45u8, 105u8, 111u8, 115u8, 45u8, 109u8,
        97u8, 105u8, 110u8, 45u8, 115u8, 99u8, 114u8, 101u8, 101u8, 110u8,
    ];
    assert(name@ =~= spec_main_screen_name());
    let uuid = new_v5(namespace_dns(), name.as_slice());
    Ok(main_screen_from_uuid(uuid))
}

/// Any two identities read for the main screen carry the same UUID: it does
/// not change between reads.
pub proof fn lemma_main_screen_uuid_stable(a: ScreenIdentity, b: ScreenIdentity)
    requires
        a.uuid == spec_main_screen_uuid(),
        b.uuid == spec_main_screen_uuid(),
    ensures
        a.uuid == b.uuid,
{
}

} // verus!
