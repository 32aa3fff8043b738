//! The remote gallery: its records, the requests that fetch it, and the
//! check that turns a fetched response into a usable collection.

use vstd::prelude::*;
use crate::text::join;

verus! {

/// Address of the gallery service.
pub const IMGUR_BASE_URL: &'static str = "https://api.imgur.com";

/// Path between the base address and a gallery identifier.
pub const GALLERY_PATH: &'static str = "/3/gallery/album/";

/// Prefix of the authorization header value.
pub const CLIENT_ID_PREFIX: &'static str = "Client-ID ";

/// The envelope the gallery service wraps around a gallery.
#[derive(Default, Debug, Clone, PartialEq)]
pub struct GalleryResponse {
    pub data: Gallery,
    pub success: bool,
    pub status: i64,
}

/// A gallery: an identifier, a declared image count and the images.
#[derive(Default, Debug, Clone, PartialEq)]
pub struct Gallery {
    pub id: String,
    pub title: String,
    pub description: serde_json::Value,
    pub datetime: i64,
    pub cover: String,
    pub account_url: String,
    pub account_id: i64,
    pub privacy: String,
    pub layout: String,
    pub views: i64,
    pub link: String,
    pub ups: i64,
    pub downs: i64,
    pub points: i64,
    pub score: i64,
    pub is_album: bool,
    pub vote: serde_json::Value,
    pub comment_count: i64,
    pub images_count: i64,
    pub images: Vec<Image>,
}

/// One image of a gallery; only its link matters to the bot.
#[derive(Default, Debug, Clone, PartialEq)]
pub struct Image {
    pub id: String,
    pub title: serde_json::Value,
    pub description: serde_json::Value,
    pub datetime: i64,
    pub type_field: String,
    pub animated: bool,
    pub width: i64,
    pub height: i64,
    pub size: i64,
    pub views: i64,
    pub bandwidth: i64,
    pub link: String,
}

/// Why a fetched gallery response cannot serve as the collection.
#[derive(Debug, Clone, Copy, PartialEq, Eq)]
pub enum GalleryError {
    /// The service reported failure, with the status it gave.
    Unsuccessful(i64),
    /// The declared image count differs from the number of images.
    CountMismatch,
    /// The gallery holds no image.
    Empty,
}

impl Gallery {
    /// The links of the images, in order.
    pub open spec fn links(self) -> Seq<Seq<char>> {
        self.images@.map_values(|img: Image| img.link@)
    }

    /// The declared count equals the number of images, and there is one at least.
    pub open spec fn ready(self) -> bool {
        &&& self.images_count as int == self.images@.len()
        &&& self.images@.len() > 0
    }

    /// Whether the gallery can serve random picks.
    pub fn is_ready(&self) -> (r: bool)
        ensures
            r == self.ready(),
    {
        self.images.len() > 0 && self.images_count >= 0 && self.images_count as u64 == self.images.len() as u64
    }
}

/// What checking a response gives: its gallery, or why it is refused.
pub open spec fn gallery_outcome(resp: GalleryResponse) -> Result<Gallery, GalleryError> {
    if !resp.success {
        Err(GalleryError::Unsuccessful(resp.status))
    } else if resp.data.images_count as int != resp.data.images@.len() {
        Err(GalleryError::CountMismatch)
    } else if resp.data.images@.len() == 0 {
        Err(GalleryError::Empty)
    } else {
        Ok(resp.data)
    }
}

impl GalleryResponse {
    /// Takes the gallery out of a response, refusing one that reports failure,
    /// whose count disagrees with its images, or that holds no image.
    pub fn into_gallery(self) -> (r: Result<Gallery, GalleryError>)
        ensures
            r == gallery_outcome(self),
            r matches Ok(g) ==> g.ready(),
    {
        if !self.success {
            return Err(GalleryError::Unsuccessful(self.status));
        }
        let n = self.data.images.len();
        if self.data.images_count < 0 || self.data.images_count as u64 != n as u64 {
            return Err(GalleryError::CountMismatch);
        }
        if n == 0 {
            return Err(GalleryError::Empty);
        }
        Ok(self.data)
    }
}

/// The address of one gallery: base, album path, identifier.
pub fn gallery_request_url(base_url: &str, gallery: &str) -> (r: String)
    ensures
        r@ == base_url@ + GALLERY_PATH@ + gallery@,
{
    let head = join(base_url, GALLERY_PATH);
    head.concat(gallery)
}

/// The value of the authorization header for a client identifier.
pub fn authorization_value(client_id: &str) -> (r: String)
    ensures
        r@ == CLIENT_ID_PREFIX@ + client_id@,
{
    join(CLIENT_ID_PREFIX, client_id)
}

} // verus!
