//! Transfer parameters negotiated on the control connection.
use vstd::prelude::*;

verus! {

/// The number of bits in a logical byte of the local representation type.
#[derive(Clone, Copy, Debug, PartialEq, Eq, Structural)]
pub struct LogicalByteLength {
    pub bits: u8,
}

/// How data is represented while it travels over the data connection.
#[derive(Clone, Copy, Debug, PartialEq, Eq, Structural)]
pub enum DataType {
    /// Text in the network virtual terminal form of ASCII; the default.
    Ascii,
    /// Text in EBCDIC.
    Ebcdic,
    /// Contiguous bits, packed into 8-bit bytes.
    Image,
    /// Logical bytes of the given size.
    Local(LogicalByteLength),
}

/// How a file is organised.
#[derive(Clone, Copy, Debug, PartialEq, Eq, Structural)]
pub enum DataStructure {
    /// A continuous sequence of bytes; the default.
    File,
    /// A sequence of records.
    Record,
    /// Independent indexed pages.
    Page,
}

/// The kind of a page of a page-structured file.
#[derive(Clone, Copy, Debug, PartialEq, Eq, Structural)]
pub enum PageType {
    /// Ends a page-structured transmission.
    Last,
    /// An ordinary page.
    Simple,
    /// Describes the file as a whole.
    Descriptor,
    /// A page with access-control information in its header.
    AccessControlled,
}

/// How file contents travel over the data connection.
#[derive(Clone, Copy, Debug, PartialEq, Eq, Structural)]
pub enum TransferMode {
    /// A plain sequence of bytes; the default.
    Stream,
    /// A series of blocks, each with a header.
    Block,
    /// Bytes with run-length compression.
    Compressed,
}

impl DataType {
    pub open spec fn spec_name(self) -> Seq<char> {
        match self {
            DataType::Ascii => "ASCII"@,
            DataType::Ebcdic => "EBCDIC"@,
            DataType::Image => "Image"@,
            DataType::Local(_) => "Local byte"@,
        }
    }

    /// The type's name, as replies show it.
    pub fn name(&self) -> (r: &'static str)
        ensures
            r@ == self.spec_name(),
    {
        match self {
            DataType::Ascii => "ASCII",
            DataType::Ebcdic => "EBCDIC",
            DataType::Image => "Image",
            DataType::Local(_) => "Local byte",
        }
    }
}

impl DataStructure {
    pub open spec fn spec_name(self) -> Seq<char> {
        match self {
            DataStructure::File => "File"@,
            DataStructure::Record => "Record"@,
            DataStructure::Page => "Page"@,
        }
    }

    /// The structure's name, as replies show it.
    pub fn name(&self) -> (r: &'static str)
        ensures
            r@ == self.spec_name(),
    {
        match self {
            DataStructure::File => "File",
            DataStructure::Record => "Record",
            DataStructure::Page => "Page",
        }
    }
}

impl PageType {
    pub open spec fn spec_code(self) -> u8 {
        match self {
            PageType::Last => 0,
            PageType::Simple => 1,
            PageType::Descriptor => 2,
            PageType::AccessControlled => 3,
        }
    }

    /// The number that stands for the page type in a page header.
    pub fn code(&self) -> (r: u8)
        ensures
            r == self.spec_code(),
    {
        match self {
            PageType::Last => 0,
            PageType::Simple => 1,
            PageType::Descriptor => 2,
            PageType::AccessControlled => 3,
        }
    }
}

impl TransferMode {
    pub open spec fn spec_name(self) -> Seq<char> {
        match self {
            TransferMode::Stream => "Stream"@,
            TransferMode::Block => "Block"@,
            TransferMode::Compressed => "Compressed"@,
        }
    }

    /// The mode's name, as replies show it.
    pub fn name(&self) -> (r: &'static str)
        ensures
            r@ == self.spec_name(),
    {
        match self {
            TransferMode::Stream => "Stream",
            TransferMode::Block => "Block",
            TransferMode::Compressed => "Compressed",
        }
    }
}

} // verus!
