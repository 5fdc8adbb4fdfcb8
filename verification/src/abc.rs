//! The boundary to the bytecode container reader: raw bytes in, a parsed file
//! or a parse error out. Nothing here is proved; each item says what it takes
//! from the reader.

use vstd::prelude::*;

verus! {

/// `swf::avm2::types::AbcFile`: a parsed container. Of what it holds, only
/// its scripts are spoken of, through [`abc_script_inits`].
#[verifier::external_type_specification]
#[verifier::external_body]
pub struct ExAbcFile(swf::avm2::types::AbcFile);

/// `swf::error::AbcParseError`: why the reader gave up. It is only passed on.
#[verifier::external_type_specification]
#[verifier::external_body]
pub struct ExAbcParseError(swf::error::AbcParseError);

/// The scripts of a parsed file, in the file's order, each given by the index
/// of its initializer in the file's method table.
pub uninterp spec fn abc_script_inits(file: swf::avm2::types::AbcFile) -> Seq<u32>;

/// What the reader makes of a byte string: `None` where it reports a parse
/// error, else the scripts of the file it returns (as [`abc_script_inits`]
/// gives them).
pub uninterp spec fn abc_parse(bytes: Seq<u8>) -> Option<Seq<u32>>;

/// `swf::avm2::read::Reader::new` and `Reader::read` on the whole input.
///
/// The reader is a function of the bytes alone, so its outcome has a name:
/// it fails exactly where [`abc_parse`] is `None`, and otherwise returns a file
/// whose scripts are the named ones. It reads the number of scripts as a
/// 32-bit count and then that many entries, so a file it returns has at most
/// `u32::MAX` scripts. The two limits keep its index arithmetic in range: it
/// adds 32-bit counts that stay below the input's length, and widens them to
/// `usize`. It allocates as the input directs; memory is taken to suffice.
#[verifier::external_body]
pub(crate) fn read_abc(bytes: &[u8]) -> (parsed: Result<
    swf::avm2::types::AbcFile,
    swf::error::AbcParseError,
>)
    requires
        bytes@.len() <= u32::MAX,
        u32::MAX < usize::MAX,
    ensures
        parsed is Ok <==> abc_parse(bytes@) is Some,
        parsed matches Ok(file) ==> abc_parse(bytes@) == Some(abc_script_inits(file))
            && abc_script_inits(file).len() <= u32::MAX,
{
    swf::avm2::read::Reader::new(bytes).read()
}

/// `Vec::len` of the file's `scripts` field.
#[verifier::external_body]
pub(crate) fn abc_script_count(file: &swf::avm2::types::AbcFile) -> (count: usize)
    ensures
        count == abc_script_inits(*file).len(),
{
    file.scripts.len()
}

/// Reads `scripts[index].init_method` and unwraps the index newtype.
#[verifier::external_body]
pub(crate) fn abc_script_init(file: &swf::avm2::types::AbcFile, index: usize) -> (method: u32)
    requires
        index < abc_script_inits(*file).len(),
    ensures
        method == abc_script_inits(*file)[index as int],
{
    file.scripts[index].init_method.0
}

} // verus!
