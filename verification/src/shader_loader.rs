//! The shader files that the program ships with: where they lie, and the table
//! that holds their text once they have been read.

use vstd::hash_map::StringHashMap;
use vstd::prelude::*;

verus! {

/// The name under which the fragment shader is kept.
pub const FRAGMENT_SHADER_NAME: &'static str = "default.frag";

/// Where the fragment shader lies, from the working directory.
pub const FRAGMENT_SHADER_PATH: &'static str = "assets/shaders/fragment/default.frag";

/// The name under which the vertex shader is kept.
pub const VERTEX_SHADER_NAME: &'static str = "default.vert";

/// Where the vertex shader lies, from the working directory.
pub const VERTEX_SHADER_PATH: &'static str = "assets/shaders/vertex/default.vert";

/// A table of shader texts, by name.
pub type ShaderTable = StringHashMap<String>;

/// The table of the two shaders: each name with the text of its file.
pub open spec fn shader_table(fragment_source: String, vertex_source: String) -> Map<
    Seq<char>,
    String,
> {
    Map::<Seq<char>, String>::empty().insert(FRAGMENT_SHADER_NAME@, fragment_source).insert(
        VERTEX_SHADER_NAME@,
        vertex_source,
    )
}

/// The two shaders go by different names, so the table holds both.
pub proof fn lemma_shader_table_holds_both(fragment_source: String, vertex_source: String)
    ensures
        FRAGMENT_SHADER_NAME@ != VERTEX_SHADER_NAME@,
        shader_table(fragment_source, vertex_source).dom() =~= set![
            FRAGMENT_SHADER_NAME@,
            VERTEX_SHADER_NAME@,
        ],
        shader_table(fragment_source, vertex_source)[FRAGMENT_SHADER_NAME@] == fragment_source,
        shader_table(fragment_source, vertex_source)[VERTEX_SHADER_NAME@] == vertex_source,
        shader_table(fragment_source, vertex_source).len() == 2,
{
    reveal_strlit("default.frag");
    reveal_strlit("default.vert");
    assert(FRAGMENT_SHADER_NAME@[8] == 'f');
    assert(VERTEX_SHADER_NAME@[8] == 'v');
}

/// Keeps the text of the two shader files in memory, each under its name.
///
/// `fragment_source` is what was read from [`FRAGMENT_SHADER_PATH`],
/// `vertex_source` what was read from [`VERTEX_SHADER_PATH`].
pub fn read_shaders_into_memory(fragment_source: String, vertex_source: String) -> (shaders:
    ShaderTable)
    ensures
        shaders@ == shader_table(fragment_source, vertex_source),
{
    let mut shaders: ShaderTable = StringHashMap::new();
    shaders.insert(FRAGMENT_SHADER_NAME.to_owned(), fragment_source);
    shaders.insert(VERTEX_SHADER_NAME.to_owned(), vertex_source);
    shaders
}

} // verus!
