//! A builder of link banners; times are in seconds since the epoch.
use vstd::prelude::*;

use crate::text::{decimal, i64_text, owned, u64_text};
use vstd::string::*;

verus! {

/// The end of the default showing period: 2030-12-31 00:00:00 UTC.
pub const DEFAULT_EXPIRATION: i64 = 1924905600;

/// Builds a link banner; a banner without a name is named `Test Banner <n>`
/// when it is written.
#[derive(Debug, Clone)]
pub struct BannerBuilder {
    pub_id: Option<uuid::Uuid>,
    link_id: Option<i32>,
    updated: i64,
    frequency: i16,
    expiration: i64,
    starts: i64,
    name: Option<String>,
    image: Option<i32>,
    impression: i32,
    status: String,
}

/// The values a banner builder holds.
pub struct BannerFields {
    pub pub_id: Option<uuid::Uuid>,
    pub link_id: Option<i32>,
    pub updated: i64,
    pub frequency: i16,
    pub expiration: i64,
    pub starts: i64,
    pub name: Option<Seq<char>>,
    pub image: Option<i32>,
    pub impression: i32,
    pub status: Seq<char>,
}

impl View for BannerBuilder {
    type V = BannerFields;

    closed spec fn view(&self) -> BannerFields {
        BannerFields {
            pub_id: self.pub_id,
            link_id: self.link_id,
            updated: self.updated,
            frequency: self.frequency,
            expiration: self.expiration,
            starts: self.starts,
            name: match self.name {
                Some(n) => Some(n@),
                None => None,
            },
            image: self.image,
            impression: self.impression,
            status: self.status@,
        }
    }
}

/// A banner as it is written: the builder's values, its name settled.
#[derive(Debug)]
pub struct BannerRecord {
    pub pub_id: Option<uuid::Uuid>,
    pub link_id: Option<i32>,
    pub updated: i64,
    pub frequency: i16,
    pub expiration: i64,
    pub starts: i64,
    pub name: String,
    pub image: Option<i32>,
    pub impression: i32,
    pub status: String,
}

impl BannerBuilder {
    /// A builder of an active banner shown once, from `now` until
    /// `DEFAULT_EXPIRATION`, updated at `now`, without link, image or name.
    pub fn new(now: i64) -> (r: Self)
        ensures
            r@ == (BannerFields {
                pub_id: None,
                link_id: None,
                updated: now,
                frequency: 1,
                expiration: DEFAULT_EXPIRATION,
                starts: now,
                name: None,
                image: None,
                impression: 0,
                status: "active"@,
            }),
    {
        BannerBuilder {
            pub_id: None,
            link_id: None,
            updated: now,
            frequency: 1,
            expiration: DEFAULT_EXPIRATION,
            starts: now,
            name: None,
            image: None,
            impression: 0,
            status: String::from_str("active"),
        }
    }

    /// The builder with the public id `pub_id`.
    pub fn pub_id(self, pub_id: uuid::Uuid) -> (r: Self)
        ensures
            r@ == (BannerFields { pub_id: Some(pub_id), ..self@ }),
    {
        BannerBuilder { pub_id: Some(pub_id), ..self }
    }

    /// The builder with the link `link_id`.
    pub fn link_id(self, link_id: i32) -> (r: Self)
        ensures
            r@ == (BannerFields { link_id: Some(link_id), ..self@ }),
    {
        BannerBuilder { link_id: Some(link_id), ..self }
    }

    /// The builder with the update time `updated`.
    pub fn updated(self, updated: i64) -> (r: Self)
        ensures
            r@ == (BannerFields { updated, ..self@ }),
    {
        BannerBuilder { updated, ..self }
    }

    /// The builder with the frequency `frequency`.
    pub fn frequency(self, frequency: i16) -> (r: Self)
        ensures
            r@ == (BannerFields { frequency, ..self@ }),
    {
        BannerBuilder { frequency, ..self }
    }

    /// The builder with the end of showing `expiration`.
    pub fn expiration(self, expiration: i64) -> (r: Self)
        ensures
            r@ == (BannerFields { expiration, ..self@ }),
    {
        BannerBuilder { expiration, ..self }
    }

    /// The builder with the start of showing `starts`.
    pub fn starts(self, starts: i64) -> (r: Self)
        ensures
            r@ == (BannerFields { starts, ..self@ }),
    {
        BannerBuilder { starts, ..self }
    }

    /// The builder with the name `name`.
    pub fn name(self, name: &str) -> (r: Self)
        ensures
            r@ == (BannerFields { name: Some(name@), ..self@ }),
    {
        BannerBuilder { name: Some(owned(name)), ..self }
    }

    /// The builder with the image `image`.
    pub fn image(self, image: i32) -> (r: Self)
        ensures
            r@ == (BannerFields { image: Some(image), ..self@ }),
    {
        BannerBuilder { image: Some(image), ..self }
    }

    /// The builder with the impression count `impression`.
    pub fn impression(self, impression: i32) -> (r: Self)
        ensures
            r@ == (BannerFields { impression, ..self@ }),
    {
        BannerBuilder { impression, ..self }
    }

    /// The builder with the status `status`.
    pub fn status(self, status: &str) -> (r: Self)
        ensures
            r@ == (BannerFields { status: status@, ..self@ }),
    {
        BannerBuilder { status: owned(status), ..self }
    }

    /// The banner to write; without a chosen name it is `Test Banner
    /// <name_seq>`.
    pub fn record(self, name_seq: u32) -> (r: BannerRecord)
        ensures
            r.name@ == match self@.name {
                Some(n) => n,
                None => "Test Banner "@ + decimal(name_seq as int),
            },
            r.pub_id == self@.pub_id,
            r.link_id == self@.link_id,
            r.updated == self@.updated,
            r.frequency == self@.frequency,
            r.expiration == self@.expiration,
            r.starts == self@.starts,
            r.image == self@.image,
            r.impression == self@.impression,
            r.status@ == self@.status,
    {
        let name = match self.name {
            Some(n) => n,
            None => {
                let mut n = String::from_str("Test Banner ");
                let seq = u64_text(name_seq as u64);
                n.append(seq.as_str());
                n
            },
        };
        BannerRecord {
            pub_id: self.pub_id,
            link_id: self.link_id,
            updated: self.updated,
            frequency: self.frequency,
            expiration: self.expiration,
            starts: self.starts,
            name,
            image: self.image,
            impression: self.impression,
            status: self.status,
        }
    }
}

/// The image URL that a written test banner is handed out with.
pub open spec fn example_image_url(id: i32) -> Seq<char> {
    "http://example.org/image/"@ + decimal(id as int) + ".png"@
}

/// The image URL that the written test banner with the id `id` is handed out
/// with.
pub fn example_image_url_text(id: i32) -> (r: String)
    ensures
        r@ == example_image_url(id),
{
    let mut r = String::from_str("http://example.org/image/");
    let n = i64_text(id as i64);
    r.append(n.as_str());
    r.append(".png");
    r
}

} // verus!
