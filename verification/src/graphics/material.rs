use crate::assets::AssetHandle;
use crate::graphics::shader::ShaderAsset;
use vstd::prelude::*;

verus! {

/// A material as an asset file describes it.
#[derive(Debug, Clone)]
pub enum MaterialAsset {
    PbrMaterial(PbrMaterialAsset),
    ShaderMaterial(ShaderMaterialAsset),
}

/// A material drawn by a shader of its own, named by its asset path.
#[derive(Debug, Clone)]
pub struct ShaderMaterialAsset {
    pub shader: String,
}

/// A material drawn with a texture, named by its asset path.
#[derive(Debug, Clone)]
pub struct PbrMaterialAsset {
    texture: String,
}

impl PbrMaterialAsset {
    pub closed spec fn spec_texture(&self) -> Seq<char> {
        self.texture@
    }

    /// The material with the texture at `texture`.
    pub fn new(texture: String) -> (m: Self)
        ensures
            m.spec_texture() == texture@,
    {
        Self { texture }
    }

    pub fn texture(&self) -> (t: &str)
        ensures
            t@ == self.spec_texture(),
    {
        self.texture.as_str()
    }
}

/// A material drawn by a loaded shader.
#[derive(Debug)]
pub struct ShaderMaterial {
    pub shader: AssetHandle<ShaderAsset>,
}

} // verus!
