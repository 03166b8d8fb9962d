//! The album classifier: maps an album name to its pair of presence image
//! ids and rewrites the album label of the Aquatic track group.

use vstd::prelude::*;
use crate::text::str_eq;

verus! {

/// Image id shown when the album is not in the catalog, and as the secondary
/// image of every cataloged album.
pub open spec fn spec_fallback_asset() -> Seq<char> {
    "mclogo"@
}

/// True of the members of the Aquatic track group, which were released as
/// singles rather than on an album.
pub open spec fn spec_is_aquatic_album(album: Seq<char>) -> bool {
    album == "Axolotl"@ || album == "Dragon Fish"@ || album == "Shuniji"@
}

/// True when the album has a dedicated primary image in the catalog.
pub open spec fn spec_album_in_catalog(album: Seq<char>) -> bool {
    spec_is_aquatic_album(album)
    || album == "Minecraft - Volume Alpha"@
    || album == "Minecraft - Volume Beta"@
    || album == "Minecraft: Nether Update (Original Game Soundtrack)"@
    || album == "Minecraft: Caves & Cliffs (Original Game Soundtrack)"@
    || album == "Minecraft: The Wild Update (Original Game Soundtrack)"@
    || album == "Minecraft: Trails & Tales (Original Game Soundtrack)"@
    || album == "Minecraft: Tricky Trials (Original Game Soundtrack)"@
    || album == "Minecraft: Chase the Skies (Original Game Soundtrack)"@
}

/// The primary (large) image id of an album.
pub open spec fn spec_album_primary(album: Seq<char>) -> Seq<char> {
    if spec_is_aquatic_album(album) {
        "vol_c418_aquatic"@
    } else if album == "Minecraft - Volume Alpha"@ {
        "vol_alpha"@
    } else if album == "Minecraft - Volume Beta"@ {
        "vol_beta"@
    } else if album == "Minecraft: Nether Update (Original Game Soundtrack)"@ {
        "vol_nether"@
    } else if album == "Minecraft: Caves & Cliffs (Original Game Soundtrack)"@ {
        "vol_caves"@
    } else if album == "Minecraft: The Wild Update (Original Game Soundtrack)"@ {
        "vol_wild"@
    } else if album == "Minecraft: Trails & Tales (Original Game Soundtrack)"@ {
        "vol_trails"@
    } else if album == "Minecraft: Tricky Trials (Original Game Soundtrack)"@ {
        "vol_tricky"@
    } else if album == "Minecraft: Chase the Skies (Original Game Soundtrack)"@ {
        "vol_chase"@
    } else {
        spec_fallback_asset()
    }
}

/// The secondary (small) image id of an album: the fallback image for
/// cataloged albums, and the empty marker otherwise.  An empty secondary
/// image must never be attached to a presence payload.
pub open spec fn spec_album_secondary(album: Seq<char>) -> Seq<char> {
    if spec_album_in_catalog(album) {
        spec_fallback_asset()
    } else {
        ""@
    }
}

/// True of the members of the Aquatic track group.
pub fn is_aquatic_album(album: &String) -> (r: bool)
    ensures
        r == spec_is_aquatic_album(album@),
{
    str_eq(album.as_str(), "Axolotl") || str_eq(album.as_str(), "Dragon Fish") || str_eq(
        album.as_str(),
        "Shuniji",
    )
}

/// Maps an album to its pair of presence image ids, `(primary, secondary)`.
/// The secondary image can be the empty string when no secondary image is
/// wanted: check for this before attaching it to a payload, or the
/// downstream presence connection hangs.
pub fn album_to_asset(album: &String) -> (r: (&'static str, &'static str))
    ensures
        r.0@ == spec_album_primary(album@),
        r.1@ == spec_album_secondary(album@),
{
    if is_aquatic_album(album) {
        return ("vol_c418_aquatic", "mclogo");
    }
    let a = album.as_str();
    if str_eq(a, "Minecraft - Volume Alpha") {
        ("vol_alpha", "mclogo")
    } else if str_eq(a, "Minecraft - Volume Beta") {
        ("vol_beta", "mclogo")
    } else if str_eq(a, "Minecraft: Nether Update (Original Game Soundtrack)") {
        ("vol_nether", "mclogo")
    } else if str_eq(a, "Minecraft: Caves & Cliffs (Original Game Soundtrack)") {
        ("vol_caves", "mclogo")
    } else if str_eq(a, "Minecraft: The Wild Update (Original Game Soundtrack)") {
        ("vol_wild", "mclogo")
    } else if str_eq(a, "Minecraft: Trails & Tales (Original Game Soundtrack)") {
        ("vol_trails", "mclogo")
    } else if str_eq(a, "Minecraft: Tricky Trials (Original Game Soundtrack)") {
        ("vol_tricky", "mclogo")
    } else if str_eq(a, "Minecraft: Chase the Skies (Original Game Soundtrack)") {
        ("vol_chase", "mclogo")
    } else {
        ("mclogo", "")
    }
}

/// The album label as displayed: members of the Aquatic track group are
/// rewritten to an annotated placeholder, every other album is kept as is.
pub open spec fn spec_special_cased(album: Seq<char>) -> Seq<char> {
    if spec_is_aquatic_album(album) {
        "Minecraft: Update Aquatic *(Not a real album)*"@
    } else {
        album
    }
}

/// Rewrites the displayed album name of the Aquatic track group, which has
/// no real album, to an annotated placeholder.
pub fn special_case_aquatic(f: &String) -> (r: String)
    ensures
        r@ == spec_special_cased(f@),
{
    if is_aquatic_album(f) {
        String::from_str("Minecraft: Update Aquatic *(Not a real album)*")
    } else {
        f.clone()
    }
}

/// The secondary image of an album outside the catalog is always the empty
/// marker: the fallback primary image is never paired with a non-empty
/// secondary image.
pub proof fn lemma_fallback_secondary_empty(album: Seq<char>)
    requires
        !spec_album_in_catalog(album),
    ensures
        spec_album_primary(album) == spec_fallback_asset(),
        spec_album_secondary(album) == Seq::<char>::empty(),
{
    reveal_strlit("");
    assert(""@ =~= Seq::<char>::empty());
}

/// The primary image tells catalog membership apart: it is the fallback
/// image exactly for albums outside the catalog.
pub proof fn lemma_primary_fallback_iff(album: Seq<char>)
    ensures
        (spec_album_primary(album) == spec_fallback_asset()) <==> !spec_album_in_catalog(album),
{
    reveal_strlit("mclogo");
    reveal_strlit("vol_c418_aquatic");
    reveal_strlit("vol_alpha");
    reveal_strlit("vol_beta");
    reveal_strlit("vol_nether");
    reveal_strlit("vol_caves");
    reveal_strlit("vol_wild");
    reveal_strlit("vol_trails");
    reveal_strlit("vol_tricky");
    reveal_strlit("vol_chase");
    assert("mclogo"@.len() == 6);
    assert("vol_c418_aquatic"@.len() == 16);
    assert("vol_alpha"@.len() == 9);
    assert("vol_beta"@.len() == 8);
    assert("vol_nether"@.len() == 10);
    assert("vol_caves"@.len() == 9);
    assert("vol_wild"@.len() == 8);
    assert("vol_trails"@.len() == 10);
    assert("vol_tricky"@.len() == 10);
    assert("vol_chase"@.len() == 9);
}

/// Members of the Aquatic track group always resolve to the dedicated image
/// pair and the rewritten album label.
pub proof fn lemma_aquatic_assets(album: Seq<char>)
    requires
        spec_is_aquatic_album(album),
    ensures
        spec_album_primary(album) == "vol_c418_aquatic"@,
        spec_album_secondary(album) == spec_fallback_asset(),
        spec_special_cased(album) == "Minecraft: Update Aquatic *(Not a real album)*"@,
{
}

} // verus!
