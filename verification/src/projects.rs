//! The records of the directory: projects, their publishers, and what is
//! known about each.

use vstd::prelude::*;
use vstd::string::{StringExecFns, StringSliceAdditionalSpecFns, StrSliceExecFns};
use vstd::utf8::{decode_utf8, encode_utf8, is_ascii_chars, is_char_boundary};
use crate::encoding::{base58, base58_text};

verus! {

/// The number of bytes of a project's name that its short form keeps.
pub const NAME_SHORT_LEN: usize = 25;

/// What stands for the part that a short form leaves out.
pub const ELLIPSIS: &'static str = "...";

#[derive(Debug, PartialEq, Eq)]
pub struct Project {
    /// The 32 bytes of the project's BLAKE3 identifier.
    pub id: [u8; 32],
    pub name: String,
    pub logo: String,
    pub icon: String,
    /// The publisher's short address, address and name.
    pub publisher: (String, String, String),
    pub codebase: String,
    pub website: Option<String>,
    pub docs: String,
    pub phishing: Vec<Phishing>,
    pub category: ProjectCategory,
    pub language: CodeLanguage,
    pub package_uri: String,
    pub description: String,
}

impl Clone for Project {
    fn clone(&self) -> (r: Self)
        ensures
            r.id == self.id,
            r.name == self.name,
            r.logo == self.logo,
            r.icon == self.icon,
            r.publisher == self.publisher,
            r.codebase == self.codebase,
            r.docs == self.docs,
            r.package_uri == self.package_uri,
            r.description == self.description,
            r.phishing@.len() == self.phishing@.len(),
    {
        Project {
            id: self.id,
            name: self.name.clone(),
            logo: self.logo.clone(),
            icon: self.icon.clone(),
            publisher: (
                self.publisher.0.clone(),
                self.publisher.1.clone(),
                self.publisher.2.clone(),
            ),
            codebase: self.codebase.clone(),
            website: self.website.clone(),
            docs: self.docs.clone(),
            phishing: self.phishing.clone(),
            category: self.category.clone(),
            language: self.language.clone(),
            package_uri: self.package_uri.clone(),
            description: self.description.clone(),
        }
    }
}

/// The short form of the name `name`: the name itself up to 25 bytes, else
/// its first 25 bytes followed by an ellipsis.
pub open spec fn name_short_spec(name: Seq<char>) -> Seq<char> {
    if encode_utf8(name).len() > NAME_SHORT_LEN {
        decode_utf8(encode_utf8(name).subrange(0, NAME_SHORT_LEN as int)) + ELLIPSIS@
    } else {
        name
    }
}

impl Project {
    pub fn publisher_shortened_address(&self) -> (r: &str)
        ensures
            r@ == self.publisher.0@,
    {
        self.publisher.0.as_str()
    }

    pub fn publisher_address(&self) -> (r: &str)
        ensures
            r@ == self.publisher.1@,
    {
        self.publisher.1.as_str()
    }

    pub fn publisher_name(&self) -> (r: &str)
        ensures
            r@ == self.publisher.2@,
    {
        self.publisher.2.as_str()
    }

    /// The short form of the project's name. A name of more than 25 bytes
    /// is cut after the 25th, which therefore has to end a character.
    pub fn name_short(&self) -> (r: String)
        requires
            encode_utf8(self.name@).len() > NAME_SHORT_LEN ==> is_char_boundary(
                encode_utf8(self.name@),
                NAME_SHORT_LEN as int,
            ),
        ensures
            r@ == name_short_spec(self.name@),
    {
        let name = self.name.as_str();
        if name.as_bytes().len() > NAME_SHORT_LEN {
            let (head, _) = name.split_at(NAME_SHORT_LEN);
            proof {
                vstd::utf8::encode_utf8_decode_utf8(head@);
            }
            String::from_str(head).concat(ELLIPSIS)
        } else {
            self.name.clone()
        }
    }
}

#[derive(Debug, PartialEq, Eq, Clone)]
pub struct Publisher {
    pub name: String,
    pub icon: String,
    pub logo: String,
    pub description: String,
    pub codebase: String,
    pub website: String,
    /// The 32 bytes of the publisher's public key.
    pub public_key: [u8; 32],
    /// The 32 bytes of the key of the publisher's mint.
    pub mint: [u8; 32],
    pub merch: Vec<Merch>,
}

/// Whether the address `address` has a short form: it is made of one-byte
/// characters, and they are enough for the head of the short form.
pub open spec fn has_short_form(address: Seq<char>) -> bool {
    is_ascii_chars(address) && address.len() >= 5
}

/// The short form of the address `address`: its first five characters, an
/// ellipsis, and its last four characters.
pub open spec fn short_form_spec(address: Seq<char>) -> Seq<char> {
    address.subrange(0, 5) + ELLIPSIS@ + address.subrange(address.len() - 4, address.len() as int)
}

/// The short form of the address `address`.
pub fn short_form(address: &str) -> (r: String)
    requires
        has_short_form(address@),
    ensures
        r@ == short_form_spec(address@),
{
    let len = address.unicode_len();
    let head = address.substring_ascii(0, 5);
    let tail = address.substring_ascii(len - 4, len);
    String::from_str(head).concat(ELLIPSIS).concat(tail)
}

impl Publisher {
    /// The publisher's address: the Base58 text of the public key.
    pub fn address(&self) -> (r: String)
        ensures
            r@ == base58_text(self.public_key@),
    {
        Self::public_key_to_base58(&self.public_key)
    }

    /// The short form of the publisher's address.
    pub fn short_address(&self) -> (r: String)
        requires
            has_short_form(base58_text(self.public_key@)),
        ensures
            r@ == short_form_spec(base58_text(self.public_key@)),
    {
        let address = self.address();
        short_form(address.as_str())
    }

    /// The short form of the publisher's address where the address has
    /// one, else `None`.
    pub fn checked_short_address(&self) -> (r: Option<String>)
        ensures
            match r {
                Some(short) => has_short_form(base58_text(self.public_key@)) && short@
                    == short_form_spec(base58_text(self.public_key@)),
                None => !has_short_form(base58_text(self.public_key@)),
            },
    {
        let address = self.address();
        if address.as_str().is_ascii() && address.as_str().unicode_len() >= 5 {
            Some(self.short_address())
        } else {
            None
        }
    }

    /// The address of the publisher's mint: the Base58 text of its key.
    pub fn mint_address(&self) -> (r: String)
        ensures
            r@ == base58_text(self.mint@),
    {
        Self::public_key_to_base58(&self.mint)
    }

    /// The Base58 text of the 32 bytes of a key.
    pub fn public_key_to_base58(public_key: &[u8; 32]) -> (r: String)
        ensures
            r@ == base58_text(public_key@),
    {
        base58(public_key.as_slice())
    }
}

impl Default for Publisher {
    fn default() -> (r: Self)
        ensures
            r.name@ == "Foo Organization"@,
            r.icon@ == "https://picsum.photos/100"@,
            r.logo@ == "https://picsum.photos/100"@,
            r.description@ == "Default org description"@,
            r.codebase@ == "foo://code.base"@,
            r.website@ == "foo://example.project"@,
            r.public_key@ == Seq::new(32, |i: int| 0u8),
            r.mint@ == Seq::new(32, |i: int| 0u8),
            r.merch@.len() == 1,
            r.merch@[0].supplier@ == "SolMerch Global Industries"@,
            r.merch@[0].image@ == "https://picsum.photos/1280/720"@,
            r.merch@[0].name@ == "Random Merch"@,
            r.merch@[0].description@ == "Example random merchandise"@,
    {
        let mut merch: Vec<Merch> = Vec::new();
        merch.push(Merch::default());
        let r = Publisher {
            name: String::from_str("Foo Organization"),
            icon: String::from_str("https://picsum.photos/100"),
            logo: String::from_str("https://picsum.photos/100"),
            description: String::from_str("Default org description"),
            codebase: String::from_str("foo://code.base"),
            website: String::from_str("foo://example.project"),
            public_key: [0u8; 32],
            mint: [0u8; 32],
            merch,
        };
        assert(r.public_key@ =~= Seq::new(32, |i: int| 0u8));
        assert(r.mint@ =~= Seq::new(32, |i: int| 0u8));
        r
    }
}

#[derive(Debug, PartialEq, Eq, PartialOrd, Ord, Clone)]
pub struct Phishing {
    pub name: String,
    pub uri: String,
    pub analysis: String,
    pub other_uri: Vec<(String, String)>,
}

impl Default for Phishing {
    fn default() -> (r: Self)
        ensures
            r.name@ == "Foo Organisation"@,
            r.uri@ == "foo://foo-org"@,
            r.analysis@ == "This is the default example phishing line"@,
            r.other_uri@.len() == 1,
            r.other_uri@[0].0@ == "$FOO MEME COIN"@,
            r.other_uri@[0].1@ == "pump.vun/jhvgjkjhvjfjjhhjfhjkfjjkdhjjjuf"@,
    {
        let mut other_uri: Vec<(String, String)> = Vec::new();
        other_uri.push(
            (
                String::from_str("$FOO MEME COIN"),
                String::from_str("pump.vun/jhvgjkjhvjfjjhhjfhjkfjjkdhjjjuf"),
            ),
        );
        Phishing {
            name: String::from_str("Foo Organisation"),
            uri: String::from_str("foo://foo-org"),
            analysis: String::from_str("This is the default example phishing line"),
            other_uri,
        }
    }
}

#[derive(Debug, PartialEq, Eq, PartialOrd, Ord, Clone)]
pub struct Merch {
    pub supplier: String,
    pub image: String,
    pub name: String,
    pub description: String,
}

impl Default for Merch {
    fn default() -> (r: Self)
        ensures
            r.supplier@ == "SolMerch Global Industries"@,
            r.image@ == "https://picsum.photos/1280/720"@,
            r.name@ == "Random Merch"@,
            r.description@ == "Example random merchandise"@,
    {
        Merch {
            supplier: String::from_str("SolMerch Global Industries"),
            image: String::from_str("https://picsum.photos/1280/720"),
            name: String::from_str("Random Merch"),
            description: String::from_str("Example random merchandise"),
        }
    }
}

#[derive(Debug, PartialEq, Eq, PartialOrd, Ord, Clone)]
pub enum ProjectCategory {
    Cryptography,
    Ai,
    Graphics,
    Text,
    Wallet,
    Payments,
    Unspecified,
}

impl ProjectCategory {
    /// The category's name as it is shown.
    pub open spec fn label_spec(self) -> Seq<char> {
        match self {
            ProjectCategory::Cryptography => "Cryptography"@,
            ProjectCategory::Ai => "AI"@,
            ProjectCategory::Wallet => "Wallet"@,
            ProjectCategory::Payments => "Payments"@,
            ProjectCategory::Graphics => "Graphics"@,
            ProjectCategory::Text => "Text"@,
            ProjectCategory::Unspecified => "Unspecified"@,
        }
    }

    /// The category's name as it is shown.
    pub fn label(&self) -> (r: &'static str)
        ensures
            r@ == self.label_spec(),
    {
        match self {
            ProjectCategory::Cryptography => "Cryptography",
            ProjectCategory::Ai => "AI",
            ProjectCategory::Wallet => "Wallet",
            ProjectCategory::Payments => "Payments",
            ProjectCategory::Graphics => "Graphics",
            ProjectCategory::Text => "Text",
            ProjectCategory::Unspecified => "Unspecified",
        }
    }

    /// The category's name as it is shown, owned.
    pub fn to_string(&self) -> (r: String)
        ensures
            r@ == self.label_spec(),
    {
        String::from_str(self.label())
    }
}

impl Default for ProjectCategory {
    fn default() -> (r: Self)
        ensures
            r == ProjectCategory::Unspecified,
    {
        ProjectCategory::Unspecified
    }
}

#[derive(Debug, PartialEq, Eq, PartialOrd, Ord, Clone)]
pub enum CodeLanguage {
    NonCode,
    Rust,
    TypeScript,
    Go,
    Python,
    JavaScript,
    KotlinJava,
}

impl CodeLanguage {
    /// The language's name as it is shown.
    pub open spec fn label_spec(self) -> Seq<char> {
        match self {
            CodeLanguage::NonCode => "NonCode"@,
            CodeLanguage::Rust => "Rust"@,
            CodeLanguage::TypeScript => "TypeScript"@,
            CodeLanguage::Go => "Go"@,
            CodeLanguage::Python => "Python"@,
            CodeLanguage::JavaScript => "JavaScript"@,
            CodeLanguage::KotlinJava => "KotlinJava"@,
        }
    }

    /// The language's name as it is shown.
    pub fn label(&self) -> (r: &'static str)
        ensures
            r@ == self.label_spec(),
    {
        match self {
            CodeLanguage::NonCode => "NonCode",
            CodeLanguage::Rust => "Rust",
            CodeLanguage::TypeScript => "TypeScript",
            CodeLanguage::Go => "Go",
            CodeLanguage::Python => "Python",
            CodeLanguage::JavaScript => "JavaScript",
            CodeLanguage::KotlinJava => "KotlinJava",
        }
    }

    /// The language's name as it is shown, owned.
    pub fn to_string(&self) -> (r: String)
        ensures
            r@ == self.label_spec(),
    {
        String::from_str(self.label())
    }
}

impl Default for CodeLanguage {
    fn default() -> (r: Self)
        ensures
            r == CodeLanguage::NonCode,
    {
        CodeLanguage::NonCode
    }
}

} // verus!
