//! The three image folders (cards, operator logos, banners) and the messages
//! of an import of their files.
use vstd::prelude::*;

use crate::emoji::Emoji;
use vstd::string::*;

verus! {

/// A folder of images: where it lies and how its notifications are labelled.
pub trait ImageFolder: Sized {
    /// The folder with its default location.
    fn new() -> Self;

    /// The label and emoji of the folder's notifications.
    fn id(&self) -> (&'static str, Emoji);

    /// The path of the folder.
    fn folder_parent(&self) -> &str;
}

/// The folder of tariff card images.
#[derive(Debug, Clone)]
pub struct CardFolder {
    folder_parent: String,
}

/// The folder of operator logos.
#[derive(Debug, Clone)]
pub struct OperatorFolder {
    folder_parent: String,
}

/// The folder of banner images.
#[derive(Debug, Clone)]
pub struct BannerFolder {
    folder_parent: String,
}

impl CardFolder {
    /// The path of the folder.
    pub closed spec fn path(&self) -> Seq<char> {
        self.folder_parent@
    }
}

impl OperatorFolder {
    /// The path of the folder.
    pub closed spec fn path(&self) -> Seq<char> {
        self.folder_parent@
    }
}

impl BannerFolder {
    /// The path of the folder.
    pub closed spec fn path(&self) -> Seq<char> {
        self.folder_parent@
    }
}

impl ImageFolder for CardFolder {
    fn new() -> (r: Self)
        ensures
            r.path() == "./images/cards"@,
    {
        CardFolder { folder_parent: String::from_str("./images/cards") }
    }

    fn id(&self) -> (r: (&'static str, Emoji))
        ensures
            r.0@ == "card"@,
            r.1 == Emoji::ImageFrame,
    {
        ("card", Emoji::ImageFrame)
    }

    fn folder_parent(&self) -> (r: &str)
        ensures
            r@ == self.path(),
    {
        self.folder_parent.as_str()
    }
}

impl ImageFolder for OperatorFolder {
    fn new() -> (r: Self)
        ensures
            r.path() == "./images/cpos"@,
    {
        OperatorFolder { folder_parent: String::from_str("./images/cpos") }
    }

    fn id(&self) -> (r: (&'static str, Emoji))
        ensures
            r.0@ == "CPO"@,
            r.1 == Emoji::ElectricPlug,
    {
        ("CPO", Emoji::ElectricPlug)
    }

    fn folder_parent(&self) -> (r: &str)
        ensures
            r@ == self.path(),
    {
        self.folder_parent.as_str()
    }
}

impl ImageFolder for BannerFolder {
    fn new() -> (r: Self)
        ensures
            r.path() == "./images/banners"@,
    {
        BannerFolder { folder_parent: String::from_str("./images/banners") }
    }

    fn id(&self) -> (r: (&'static str, Emoji))
        ensures
            r.0@ == "Banner"@,
            r.1 == Emoji::Art,
    {
        ("Banner", Emoji::Art)
    }

    fn folder_parent(&self) -> (r: &str)
        ensures
            r@ == self.path(),
    {
        self.folder_parent.as_str()
    }
}

/// The error of a file whose name names no known tariff, operator or banner.
pub open spec fn unrecognized_text(filename: Seq<char>) -> Seq<char> {
    "Tariff for filename \""@ + filename + "\" was not recognized"@
}

/// The error of a file whose name names no known tariff, operator or banner.
pub fn unrecognized_message(filename: &str) -> (r: String)
    ensures
        r@ == unrecognized_text(filename@),
{
    let mut r = String::from_str("Tariff for filename \"");
    r.append(filename);
    r.append("\" was not recognized");
    r
}

/// The error of an operator logo whose name names no known operator.
pub open spec fn unknown_operator_text(filename: Seq<char>) -> Seq<char> {
    "CPO for filename \""@ + filename + "\" was not recognized"@
}

/// The error of an operator logo whose name names no known operator.
pub fn unknown_operator_message(filename: &str) -> (r: String)
    ensures
        r@ == unknown_operator_text(filename@),
{
    let mut r = String::from_str("CPO for filename \"");
    r.append(filename);
    r.append("\" was not recognized");
    r
}

/// The line reported for a file that an import skipped with `error`.
pub open spec fn ignored_text(filename: Seq<char>, error: Seq<char>) -> Seq<char> {
    "Ignoring image filename "@ + filename + ", error: "@ + error
}

/// The line reported for a file that an import skipped with `error`.
pub fn ignored_message(filename: &str, error: &str) -> (r: String)
    ensures
        r@ == ignored_text(filename@, error@),
{
    let mut r = String::from_str("Ignoring image filename ");
    r.append(filename);
    r.append(", error: ");
    r.append(error);
    r
}

/// The error of an import whose folder path is not a folder.
pub open spec fn not_a_folder_text(path: Seq<char>) -> Seq<char> {
    path + " is not a folder"@
}

/// The error of an import whose folder path is not a folder.
pub fn not_a_folder_message(path: &str) -> (r: String)
    ensures
        r@ == not_a_folder_text(path@),
{
    let mut r = String::from_str(path);
    r.append(" is not a folder");
    r
}

} // verus!
