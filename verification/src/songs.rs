//! The track catalog: maps a track's source filename to the part of the game
//! its music belongs to, and that category to its display label.

use vstd::prelude::*;
use crate::text::str_eq;

verus! {

/// The category a soundtrack entry belongs to.
#[derive(Clone, Copy, PartialEq, Eq, Structural, Debug)]
pub enum Dimension {
    Overworld,
    Nether,
    End,
    Minecraft,
    Disc,
}

/// The display label of a category.
pub open spec fn spec_dimension_label(d: Dimension) -> Seq<char> {
    match d {
        Dimension::Overworld => "Overworld Music"@,
        Dimension::Nether => "Nether Music"@,
        Dimension::End => "End Music"@,
        Dimension::Disc => "Music Disc"@,
        Dimension::Minecraft => "Minecraft Music"@,
    }
}

/// Returns the display label of a category, used as the descriptive text of
/// the presence image while a track is playing.
pub fn dimension_to_string(dimension: &Dimension) -> (r: &'static str)
    ensures
        r@ == spec_dimension_label(*dimension),
{
    match dimension {
        Dimension::Overworld => "Overworld Music",
        Dimension::Nether => "Nether Music",
        Dimension::End => "End Music",
        Dimension::Disc => "Music Disc",
        Dimension::Minecraft => "Minecraft Music",
    }
}

/// True of the source filenames of the overworld tracks.
pub open spec fn spec_is_overworld_track(f: Seq<char>) -> bool {
    ||| f == "aerie.ogg"@
    ||| f == "aria_math.ogg"@
    ||| f == "ancestry.ogg"@
    ||| f == "a_familiar_room.ogg"@
    ||| f == "an_ordinary_day.ogg"@
    ||| f == "below_and_above.ogg"@
    ||| f == "biome_fest.ogg"@
    ||| f == "blind_spots.ogg"@
    ||| f == "broken_clocks.ogg"@
    ||| f == "bromeliad.ogg"@
    ||| f == "clark.ogg"@
    ||| f == "comforting_memories.ogg"@
    ||| f == "crescent_dunes.ogg"@
    ||| f == "danny.ogg"@
    ||| f == "deeper.ogg"@
    ||| f == "dreiton.ogg"@
    ||| f == "dry_hands.ogg"@
    ||| f == "echo_in_the_wind.ogg"@
    ||| f == "eld_unknown.ogg"@
    ||| f == "endless.ogg"@
    ||| f == "featherfall.ogg"@
    ||| f == "firebugs.ogg"@
    ||| f == "fireflies.ogg"@
    ||| f == "floating_dream.ogg"@
    ||| f == "haggstrom.ogg"@
    ||| f == "haunt_muskie.ogg"@
    ||| f == "infinite_amethyst.ogg"@
    ||| f == "key.ogg"@
    ||| f == "komorebi.ogg"@
    ||| f == "labyrinthine.ogg"@
    ||| f == "left_to_bloom.ogg"@
    ||| f == "lilypad.ogg"@
    ||| f == "living_mice.ogg"@
    ||| f == "mice_on_venus.ogg"@
    ||| f == "minecraft.ogg"@
    ||| f == "one_more_day.ogg"@
    ||| f == "os_piano.ogg"@
    ||| f == "oxygene.ogg"@
    ||| f == "pokopoko.ogg"@
    ||| f == "puzzlebox.ogg"@
    ||| f == "stand_tall.ogg"@
    ||| f == "subwoofer_lullaby.ogg"@
    ||| f == "sweden.ogg"@
    ||| f == "taswell.ogg"@
    ||| f == "watcher.ogg"@
    ||| f == "wending.ogg"@
    ||| f == "wet_hands.ogg"@
    ||| f == "yakusoku.ogg"@
    ||| f == "axolotl.ogg"@
    ||| f == "dragon_fish.ogg"@
    ||| f == "shuniji.ogg"@
}

/// True of the source filenames of the nether tracks.
pub open spec fn spec_is_nether_track(f: Seq<char>) -> bool {
    ||| f == "ballad_of_the_cats.ogg"@
    ||| f == "chrysopoeia.ogg"@
    ||| f == "concrete_halls.ogg"@
    ||| f == "dead_voxel.ogg"@
    ||| f == "rubedo.ogg"@
    ||| f == "so_below.ogg"@
    ||| f == "warmth.ogg"@
}

/// True of the source filenames of the end tracks.
pub open spec fn spec_is_end_track(f: Seq<char>) -> bool {
    ||| f == "boss.ogg"@
    ||| f == "the_end.ogg"@
    ||| f == "alpha.ogg"@
}

/// True of the source filenames of the music discs.
pub open spec fn spec_is_disc_track(f: Seq<char>) -> bool {
    ||| f == "11.ogg"@
    ||| f == "13.ogg"@
    ||| f == "5.ogg"@
    ||| f == "blocks.ogg"@
    ||| f == "cat.ogg"@
    ||| f == "chirp.ogg"@
    ||| f == "far.ogg"@
    ||| f == "mall.ogg"@
    ||| f == "mellohi.ogg"@
    ||| f == "stal.ogg"@
    ||| f == "strad.ogg"@
    ||| f == "wait.ogg"@
    ||| f == "precipice.ogg"@
    ||| f == "relic.ogg"@
    ||| f == "creator_music_box.ogg"@
    ||| f == "creator.ogg"@
    ||| f == "pigstep.ogg"@
    ||| f == "otherside.ogg"@
    ||| f == "ward.ogg"@
    ||| f == "tears.ogg"@
    ||| f == "lava_chicken.ogg"@
}

/// The category of a track, looked up by its source filename; filenames
/// outside the catalog fall through to the default category.
pub open spec fn spec_song_dimension(f: Seq<char>) -> Dimension {
    if spec_is_overworld_track(f) {
        Dimension::Overworld
    } else if spec_is_nether_track(f) {
        Dimension::Nether
    } else if spec_is_end_track(f) {
        Dimension::End
    } else if spec_is_disc_track(f) {
        Dimension::Disc
    } else {
        Dimension::Minecraft
    }
}

fn is_overworld_track(f: &str) -> (r: bool)
    ensures
        r == spec_is_overworld_track(f@),
{
    str_eq(f, "aerie.ogg") || str_eq(f, "aria_math.ogg") || str_eq(f, "ancestry.ogg") || str_eq(
        f,
        "a_familiar_room.ogg",
    ) || str_eq(f, "an_ordinary_day.ogg") || str_eq(f, "below_and_above.ogg") || str_eq(
        f,
        "biome_fest.ogg",
    ) || str_eq(f, "blind_spots.ogg") || str_eq(f, "broken_clocks.ogg") || str_eq(
        f,
        "bromeliad.ogg",
    ) || str_eq(f, "clark.ogg") || str_eq(f, "comforting_memories.ogg") || str_eq(
        f,
        "crescent_dunes.ogg",
    ) || str_eq(f, "danny.ogg") || str_eq(f, "deeper.ogg") || str_eq(f, "dreiton.ogg") || str_eq(
        f,
        "dry_hands.ogg",
    ) || str_eq(f, "echo_in_the_wind.ogg") || str_eq(f, "eld_unknown.ogg") || str_eq(
        f,
        "endless.ogg",
    ) || str_eq(f, "featherfall.ogg") || str_eq(f, "firebugs.ogg") || str_eq(f, "fireflies.ogg")
        || str_eq(f, "floating_dream.ogg") || str_eq(f, "haggstrom.ogg") || str_eq(
        f,
        "haunt_muskie.ogg",
    ) || str_eq(f, "infinite_amethyst.ogg") || str_eq(f, "key.ogg") || str_eq(f, "komorebi.ogg")
        || str_eq(f, "labyrinthine.ogg") || str_eq(f, "left_to_bloom.ogg") || str_eq(
        f,
        "lilypad.ogg",
    ) || str_eq(f, "living_mice.ogg") || str_eq(f, "mice_on_venus.ogg") || str_eq(
        f,
        "minecraft.ogg",
    ) || str_eq(f, "one_more_day.ogg") || str_eq(f, "os_piano.ogg") || str_eq(f, "oxygene.ogg")
        || str_eq(f, "pokopoko.ogg") || str_eq(f, "puzzlebox.ogg") || str_eq(f, "stand_tall.ogg")
        || str_eq(f, "subwoofer_lullaby.ogg") || str_eq(f, "sweden.ogg") || str_eq(
        f,
        "taswell.ogg",
    ) || str_eq(f, "watcher.ogg") || str_eq(f, "wending.ogg") || str_eq(f, "wet_hands.ogg")
        || str_eq(f, "yakusoku.ogg") || str_eq(f, "axolotl.ogg") || str_eq(f, "dragon_fish.ogg")
        || str_eq(f, "shuniji.ogg")
}

fn is_nether_track(f: &str) -> (r: bool)
    ensures
        r == spec_is_nether_track(f@),
{
    str_eq(f, "ballad_of_the_cats.ogg") || str_eq(f, "chrysopoeia.ogg") || str_eq(
        f,
        "concrete_halls.ogg",
    ) || str_eq(f, "dead_voxel.ogg") || str_eq(f, "rubedo.ogg") || str_eq(f, "so_below.ogg")
        || str_eq(f, "warmth.ogg")
}

fn is_end_track(f: &str) -> (r: bool)
    ensures
        r == spec_is_end_track(f@),
{
    str_eq(f, "boss.ogg") || str_eq(f, "the_end.ogg") || str_eq(f, "alpha.ogg")
}

fn is_disc_track(f: &str) -> (r: bool)
    ensures
        r == spec_is_disc_track(f@),
{
    str_eq(f, "11.ogg") || str_eq(f, "13.ogg") || str_eq(f, "5.ogg") || str_eq(f, "blocks.ogg")
        || str_eq(f, "cat.ogg") || str_eq(f, "chirp.ogg") || str_eq(f, "far.ogg") || str_eq(
        f,
        "mall.ogg",
    ) || str_eq(f, "mellohi.ogg") || str_eq(f, "stal.ogg") || str_eq(f, "strad.ogg") || str_eq(
        f,
        "wait.ogg",
    ) || str_eq(f, "precipice.ogg") || str_eq(f, "relic.ogg") || str_eq(f, "creator_music_box.ogg")
        || str_eq(f, "creator.ogg") || str_eq(f, "pigstep.ogg") || str_eq(f, "otherside.ogg")
        || str_eq(f, "ward.ogg") || str_eq(f, "tears.ogg") || str_eq(f, "lava_chicken.ogg")
}

/// Looks a track's source filename up in the catalog and returns its
/// category; filenames outside the catalog get the default category.
pub fn song_to_dimension(filename: &str) -> (r: Dimension)
    ensures
        r == spec_song_dimension(filename@),
{
    if is_overworld_track(filename) {
        Dimension::Overworld
    } else if is_nether_track(filename) {
        Dimension::Nether
    } else if is_end_track(filename) {
        Dimension::End
    } else if is_disc_track(filename) {
        Dimension::Disc
    } else {
        Dimension::Minecraft
    }
}

} // verus!
