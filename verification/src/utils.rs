//! The paintings the robot can choose from, and how one is asked for.

use crate::random::random_in;
use vstd::prelude::*;
use vstd::string::*;

verus! {

/// The number of paintings in the catalogue.
pub const IMG_COUNT: usize = 6;

/// The height, in tiles, to which every painting is scaled.
pub const IMG_HEIGHT: u32 = 50;

/// The directory that holds the paintings.
pub open spec fn img_dir() -> Seq<char> {
    "res/img/"@
}

/// The file name of the painting at `index` of the catalogue.
pub open spec fn img_name(index: int) -> Seq<char> {
    if index == 0 {
        "agentileschi_giodittaoloferne.png"@
    } else if index == 1 {
        "fontana_concettospaziale.png"@
    } else if index == 2 {
        "giulialama_martirioeurosia.png"@
    } else if index == 3 {
        "meow.png"@
    } else if index == 4 {
        "paularego_war.png"@
    } else {
        "remediosvaro_fenomeno.png"@
    }
}

/// The path of the painting that the robot paints once its countdown has
/// run out.
pub open spec fn last_img_path() -> Seq<char> {
    "res/img/meow.png"@
}

/// A painting to be loaded: where its file is and how tall it is to be.
#[derive(Debug, PartialEq, Eq)]
pub struct ImageRequest {
    /// The path of the image file.
    pub path: String,
    /// The height to scale the image to.
    pub resize_height: u32,
}

fn catalogue_name(index: usize) -> (name: &'static str)
    requires
        index < IMG_COUNT,
    ensures
        name@ == img_name(index as int),
{
    if index == 0 {
        "agentileschi_giodittaoloferne.png"
    } else if index == 1 {
        "fontana_concettospaziale.png"
    } else if index == 2 {
        "giulialama_martirioeurosia.png"
    } else if index == 3 {
        "meow.png"
    } else if index == 4 {
        "paularego_war.png"
    } else {
        "remediosvaro_fenomeno.png"
    }
}

/// Asks for the painting in the file at `path`, at the height every painting
/// gets.
pub fn build_img(path: &str) -> (request: ImageRequest)
    ensures
        request.path@ == path@,
        request.resize_height == IMG_HEIGHT,
{
    ImageRequest { path: String::from_str(path), resize_height: IMG_HEIGHT }
}

/// Asks for the painting at `index` of the catalogue.
fn catalogue_entry(index: usize) -> (request: ImageRequest)
    requires
        index < IMG_COUNT,
    ensures
        request.path@ == img_dir() + img_name(index as int),
        request.resize_height == IMG_HEIGHT,
{
    let path = String::from_str("res/img/").concat(catalogue_name(index));
    build_img(path.as_str())
}

/// Asks for the painting at `index` of the catalogue, or for none when the
/// catalogue is not that long.
pub fn catalogue_img(index: usize) -> (request: Option<ImageRequest>)
    ensures
        index < IMG_COUNT ==> (request matches Some(r) && r.path@ == img_dir() + img_name(
            index as int,
        ) && r.resize_height == IMG_HEIGHT),
        index >= IMG_COUNT ==> request is None,
{
    if index < IMG_COUNT {
        Some(catalogue_entry(index))
    } else {
        None
    }
}

/// Asks for a painting of the catalogue, picked at random.
pub fn rand_img() -> (request: ImageRequest)
    ensures
        exists|index: int|
            0 <= index < IMG_COUNT && request.path@ == img_dir() + #[trigger] img_name(index),
        request.resize_height == IMG_HEIGHT,
{
    let drawn: i32 = random_in(0, 5);
    catalogue_entry(drawn as usize)
}

/// Asks for the painting that closes the robot's career.
pub fn last_img() -> (request: ImageRequest)
    ensures
        request.path@ == last_img_path(),
        request.resize_height == IMG_HEIGHT,
{
    build_img("res/img/meow.png")
}

} // verus!
