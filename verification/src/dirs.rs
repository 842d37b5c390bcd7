//! The user's standard directories, as Windows' known folders.
//!
//! Each directory function names the known folder whose path gives that
//! directory, or `None` where Windows has no such folder. Looking a folder's
//! path up is the caller's work.
use vstd::prelude::*;

verus! {

/// A Windows globally unique identifier.
#[allow(non_snake_case)]
#[derive(Clone, Copy, Debug)]
pub struct GUID {
    pub Data1: u32,
    pub Data2: u16,
    pub Data3: u16,
    pub Data4: [u8; 8],
}

/// Whether two identifiers are equal in all sixteen bytes.
pub open spec fn same_guid(a: GUID, b: GUID) -> bool {
    &&& a.Data1 == b.Data1
    &&& a.Data2 == b.Data2
    &&& a.Data3 == b.Data3
    &&& a.Data4@ == b.Data4@
}

/// Compares two identifiers byte for byte.
#[allow(non_snake_case)]
pub fn IsEqualGUID(g1: &GUID, g2: &GUID) -> (r: bool)
    ensures
        r == same_guid(*g1, *g2),
{
    if g1.Data1 != g2.Data1 || g1.Data2 != g2.Data2 || g1.Data3 != g2.Data3 {
        return false;
    }
    let mut i: usize = 0;
    while i < 8
        invariant
            i <= 8,
            forall|j: int| 0 <= j < i ==> g1.Data4@[j] == g2.Data4@[j],
        decreases 8 - i,
    {
        if g1.Data4[i] != g2.Data4[i] {
            return false;
        }
        i = i + 1;
    }
    assert(g1.Data4@ =~= g2.Data4@);
    true
}

/// The Windows known folders the directory functions draw on.
#[derive(Clone, Copy, Debug, PartialEq, Eq, Structural)]
pub enum KnownFolder {
    Profile,
    RoamingAppData,
    LocalAppData,
    Music,
    Desktop,
    Documents,
    Downloads,
    Pictures,
    Public,
    Templates,
    Videos,
}

/// Each known folder's `FOLDERID_*` identifier.
pub open spec fn folder_guid(f: KnownFolder) -> GUID {
    match f {
        KnownFolder::Profile => GUID { Data1: 0x5E6C858F, Data2: 0x0E22, Data3: 0x4760, Data4: [0x9A, 0xFE, 0xEA, 0x33, 0x17, 0xB6, 0x71, 0x73] },
        KnownFolder::RoamingAppData => GUID { Data1: 0x3EB685DB, Data2: 0x65F9, Data3: 0x4CF6, Data4: [0xA0, 0x3A, 0xE3, 0xEF, 0x65, 0x72, 0x9F, 0x3D] },
        KnownFolder::LocalAppData => GUID { Data1: 0xF1B32785, Data2: 0x6FBA, Data3: 0x4FCF, Data4: [0x9D, 0x55, 0x7B, 0x8E, 0x7F, 0x15, 0x70, 0x91] },
        KnownFolder::Music => GUID { Data1: 0x4BD8D571, Data2: 0x6D19, Data3: 0x48D3, Data4: [0xBE, 0x97, 0x42, 0x22, 0x20, 0x08, 0x0E, 0x43] },
        KnownFolder::Desktop => GUID { Data1: 0xB4BFCC3A, Data2: 0xDB2C, Data3: 0x424C, Data4: [0xB0, 0x29, 0x7F, 0xE9, 0x9A, 0x87, 0xC6, 0x41] },
        KnownFolder::Documents => GUID { Data1: 0xFDD39AD0, Data2: 0x238F, Data3: 0x46AF, Data4: [0xAD, 0xB4, 0x6C, 0x85, 0x48, 0x03, 0x69, 0xC7] },
        KnownFolder::Downloads => GUID { Data1: 0x374DE290, Data2: 0x123F, Data3: 0x4565, Data4: [0x91, 0x64, 0x39, 0xC4, 0x92, 0x5E, 0x46, 0x7B] },
        KnownFolder::Pictures => GUID { Data1: 0x33E28130, Data2: 0x4E1E, Data3: 0x4676, Data4: [0x83, 0x5A, 0x98, 0x39, 0x5C, 0x3B, 0xC3, 0xBB] },
        KnownFolder::Public => GUID { Data1: 0xDFDF76A2, Data2: 0xC82A, Data3: 0x4D63, Data4: [0x90, 0x6A, 0x56, 0x44, 0xAC, 0x45, 0x73, 0x85] },
        KnownFolder::Templates => GUID { Data1: 0xA63293E8, Data2: 0x664E, Data3: 0x48DB, Data4: [0xA0, 0x79, 0xDF, 0x75, 0x9E, 0x05, 0x09, 0xF7] },
        KnownFolder::Videos => GUID { Data1: 0x18989B1D, Data2: 0x99B5, Data3: 0x455B, Data4: [0x84, 0x1C, 0xAB, 0x7C, 0x74, 0xE4, 0xDD, 0xFC] },
    }
}

fn guid(d1: u32, d2: u16, d3: u16, d4: [u8; 8]) -> (r: GUID)
    ensures
        r.Data1 == d1,
        r.Data2 == d2,
        r.Data3 == d3,
        r.Data4 == d4,
{
    GUID { Data1: d1, Data2: d2, Data3: d3, Data4: d4 }
}

impl KnownFolder {
    /// The folder's `FOLDERID_*` identifier.
    pub fn id(&self) -> (r: GUID)
        ensures
            r == folder_guid(*self),
    {
        match self {
            KnownFolder::Profile => guid(
                0x5E6C858F,
                0x0E22,
                0x4760,
                [0x9A, 0xFE, 0xEA, 0x33, 0x17, 0xB6, 0x71, 0x73],
            ),
            KnownFolder::RoamingAppData => guid(
                0x3EB685DB,
                0x65F9,
                0x4CF6,
                [0xA0, 0x3A, 0xE3, 0xEF, 0x65, 0x72, 0x9F, 0x3D],
            ),
            KnownFolder::LocalAppData => guid(
                0xF1B32785,
                0x6FBA,
                0x4FCF,
                [0x9D, 0x55, 0x7B, 0x8E, 0x7F, 0x15, 0x70, 0x91],
            ),
            KnownFolder::Music => guid(
                0x4BD8D571,
                0x6D19,
                0x48D3,
                [0xBE, 0x97, 0x42, 0x22, 0x20, 0x08, 0x0E, 0x43],
            ),
            KnownFolder::Desktop => guid(
                0xB4BFCC3A,
                0xDB2C,
                0x424C,
                [0xB0, 0x29, 0x7F, 0xE9, 0x9A, 0x87, 0xC6, 0x41],
            ),
            KnownFolder::Documents => guid(
                0xFDD39AD0,
                0x238F,
                0x46AF,
                [0xAD, 0xB4, 0x6C, 0x85, 0x48, 0x03, 0x69, 0xC7],
            ),
            KnownFolder::Downloads => guid(
                0x374DE290,
                0x123F,
                0x4565,
                [0x91, 0x64, 0x39, 0xC4, 0x92, 0x5E, 0x46, 0x7B],
            ),
            KnownFolder::Pictures => guid(
                0x33E28130,
                0x4E1E,
                0x4676,
                [0x83, 0x5A, 0x98, 0x39, 0x5C, 0x3B, 0xC3, 0xBB],
            ),
            KnownFolder::Public => guid(
                0xDFDF76A2,
                0xC82A,
                0x4D63,
                [0x90, 0x6A, 0x56, 0x44, 0xAC, 0x45, 0x73, 0x85],
            ),
            KnownFolder::Templates => guid(
                0xA63293E8,
                0x664E,
                0x48DB,
                [0xA0, 0x79, 0xDF, 0x75, 0x9E, 0x05, 0x09, 0xF7],
            ),
            KnownFolder::Videos => guid(
                0x18989B1D,
                0x99B5,
                0x455B,
                [0x84, 0x1C, 0xAB, 0x7C, 0x74, 0xE4, 0xDD, 0xFC],
            ),
        }
    }
}

/// Two known folders have equal identifiers exactly when they are the same
/// folder.
pub proof fn lemma_folder_ids_distinct(a: KnownFolder, b: KnownFolder)
    ensures
        same_guid(folder_guid(a), folder_guid(b)) <==> (a == b),
{
}

/// Whether `g` is the identifier written `{d1-d2-d3-d4}`.
pub open spec fn guid_is(g: GUID, d1: u32, d2: u16, d3: u16, d4: Seq<u8>) -> bool {
    &&& g.Data1 == d1
    &&& g.Data2 == d2
    &&& g.Data3 == d3
    &&& g.Data4@ == d4
}

/// Each known folder's identifier is the one Windows publishes for it
/// (`FOLDERID_Profile`, `FOLDERID_RoamingAppData`, ...), so that every
/// directory function leads to its own folder: the Documents folder to
/// `{FDD39AD0-238F-46AF-ADB4-6C85480369C7}`, Downloads to
/// `{374DE290-123F-4565-9164-39C4925E467B}`, and so on.
pub proof fn lemma_folder_ids_published(f: KnownFolder)
    ensures
        f == KnownFolder::Profile ==> guid_is(folder_guid(f), 0x5E6C858F, 0x0E22, 0x4760,
            seq![0x9Au8, 0xFE, 0xEA, 0x33, 0x17, 0xB6, 0x71, 0x73]),
        f == KnownFolder::RoamingAppData ==> guid_is(folder_guid(f), 0x3EB685DB, 0x65F9, 0x4CF6,
            seq![0xA0u8, 0x3A, 0xE3, 0xEF, 0x65, 0x72, 0x9F, 0x3D]),
        f == KnownFolder::LocalAppData ==> guid_is(folder_guid(f), 0xF1B32785, 0x6FBA, 0x4FCF,
            seq![0x9Du8, 0x55, 0x7B, 0x8E, 0x7F, 0x15, 0x70, 0x91]),
        f == KnownFolder::Music ==> guid_is(folder_guid(f), 0x4BD8D571, 0x6D19, 0x48D3,
            seq![0xBEu8, 0x97, 0x42, 0x22, 0x20, 0x08, 0x0E, 0x43]),
        f == KnownFolder::Desktop ==> guid_is(folder_guid(f), 0xB4BFCC3A, 0xDB2C, 0x424C,
            seq![0xB0u8, 0x29, 0x7F, 0xE9, 0x9A, 0x87, 0xC6, 0x41]),
        f == KnownFolder::Documents ==> guid_is(folder_guid(f), 0xFDD39AD0, 0x238F, 0x46AF,
            seq![0xADu8, 0xB4, 0x6C, 0x85, 0x48, 0x03, 0x69, 0xC7]),
        f == KnownFolder::Downloads ==> guid_is(folder_guid(f), 0x374DE290, 0x123F, 0x4565,
            seq![0x91u8, 0x64, 0x39, 0xC4, 0x92, 0x5E, 0x46, 0x7B]),
        f == KnownFolder::Pictures ==> guid_is(folder_guid(f), 0x33E28130, 0x4E1E, 0x4676,
            seq![0x83u8, 0x5A, 0x98, 0x39, 0x5C, 0x3B, 0xC3, 0xBB]),
        f == KnownFolder::Public ==> guid_is(folder_guid(f), 0xDFDF76A2, 0xC82A, 0x4D63,
            seq![0x90u8, 0x6A, 0x56, 0x44, 0xAC, 0x45, 0x73, 0x85]),
        f == KnownFolder::Templates ==> guid_is(folder_guid(f), 0xA63293E8, 0x664E, 0x48DB,
            seq![0xA0u8, 0x79, 0xDF, 0x75, 0x9E, 0x05, 0x09, 0xF7]),
        f == KnownFolder::Videos ==> guid_is(folder_guid(f), 0x18989B1D, 0x99B5, 0x455B,
            seq![0x84u8, 0x1C, 0xAB, 0x7C, 0x74, 0xE4, 0xDD, 0xFC]),
{
    let g = folder_guid(f);
    assert(g.Data4@ =~= seq![g.Data4@[0], g.Data4@[1], g.Data4@[2], g.Data4@[3], g.Data4@[4],
        g.Data4@[5], g.Data4@[6], g.Data4@[7]]);
}

/// The folder of the user's home directory.
pub fn home_dir() -> (r: Option<KnownFolder>)
    ensures
        r == Some(KnownFolder::Profile),
{
    Some(KnownFolder::Profile)
}

/// The folder of the user's data directory.
pub fn data_dir() -> (r: Option<KnownFolder>)
    ensures
        r == Some(KnownFolder::RoamingAppData),
{
    Some(KnownFolder::RoamingAppData)
}

/// The folder of the user's local data directory.
pub fn data_local_dir() -> (r: Option<KnownFolder>)
    ensures
        r == Some(KnownFolder::LocalAppData),
{
    Some(KnownFolder::LocalAppData)
}

/// The folder of the user's cache directory: the local data directory.
pub fn cache_dir() -> (r: Option<KnownFolder>)
    ensures
        r == Some(KnownFolder::LocalAppData),
{
    data_local_dir()
}

/// The folder of the user's config directory: the data directory.
pub fn config_dir() -> (r: Option<KnownFolder>)
    ensures
        r == Some(KnownFolder::RoamingAppData),
{
    data_dir()
}

/// Windows has no executable directory.
pub fn executable_dir() -> (r: Option<KnownFolder>)
    ensures
        r is None,
{
    None
}

/// Windows has no runtime directory.
pub fn runtime_dir() -> (r: Option<KnownFolder>)
    ensures
        r is None,
{
    None
}

/// The folder of the user's audio directory.
pub fn audio_dir() -> (r: Option<KnownFolder>)
    ensures
        r == Some(KnownFolder::Music),
{
    Some(KnownFolder::Music)
}

/// The folder of the user's desktop directory.
pub fn desktop_dir() -> (r: Option<KnownFolder>)
    ensures
        r == Some(KnownFolder::Desktop),
{
    Some(KnownFolder::Desktop)
}

/// The folder of the user's document directory.
pub fn document_dir() -> (r: Option<KnownFolder>)
    ensures
        r == Some(KnownFolder::Documents),
{
    Some(KnownFolder::Documents)
}

/// The folder of the user's download directory.
pub fn download_dir() -> (r: Option<KnownFolder>)
    ensures
        r == Some(KnownFolder::Downloads),
{
    Some(KnownFolder::Downloads)
}

/// Windows has no font directory.
pub fn font_dir() -> (r: Option<KnownFolder>)
    ensures
        r is None,
{
    None
}

/// The folder of the user's picture directory.
pub fn picture_dir() -> (r: Option<KnownFolder>)
    ensures
        r == Some(KnownFolder::Pictures),
{
    Some(KnownFolder::Pictures)
}

/// The folder of the user's public directory.
pub fn public_dir() -> (r: Option<KnownFolder>)
    ensures
        r == Some(KnownFolder::Public),
{
    Some(KnownFolder::Public)
}

/// The folder of the user's template directory.
pub fn template_dir() -> (r: Option<KnownFolder>)
    ensures
        r == Some(KnownFolder::Templates),
{
    Some(KnownFolder::Templates)
}

/// The folder of the user's video directory.
pub fn video_dir() -> (r: Option<KnownFolder>)
    ensures
        r == Some(KnownFolder::Videos),
{
    Some(KnownFolder::Videos)
}

} // verus!
