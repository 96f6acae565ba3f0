pub mod material;
pub mod shader;
pub mod syntax;
pub mod wgsl;

use crate::assets::{AssetError, AssetHandle};
use crate::graphics::material::MaterialAsset;
use vstd::prelude::*;

verus! {

/// The size of the window, in pixels.
#[derive(Clone, Copy)]
pub struct WindowSize {
    pub width: u32,
    pub height: u32,
}

impl WindowSize {
    pub fn new(width: u32, height: u32) -> (s: Self)
        ensures
            s.width == width,
            s.height == height,
    {
        Self { width, height }
    }
}

/// A cube drawn with a material.
#[derive(Debug)]
pub struct Cube {
    pub material: AssetHandle<MaterialAsset>,
}

/// A draw call: the vertex buffer, the optional index buffer, the counts and the material.
pub struct DrawCommand {
    pub vertex_buffer: usize,
    pub index_buffer: Option<usize>,
    pub element_count: u32,
    pub vertex_count: u32,
    pub material_handle: AssetHandle<MaterialAsset>,
}

/// The identifier of a render target of a render graph.
#[derive(Clone, Copy, Debug)]
pub struct RenderTargetId(usize);

/// Settings of the default render pipeline.
pub struct DefaultRenderPipelineSettings {
    pub render_debug_grid: bool,
}

/// Errors of the graphics layer.
#[derive(Debug)]
pub enum GraphicsError {
    ModelAssetNotFound,
    MaterialAssetNotFound,
    TextureAssetNotFound,
    InvalidMesh,
    AssetError(AssetError),
    WgslTreeSitterLanguageError,
    WgslTreeSitterParseError,
    WgslMissingTypeDecl,
    WgslParseSourceStringError,
    WgslMissingAttribute,
    WgslAddressSpaceParseError,
    WgslAccessModeParseError,
    WgslParseError { expected: &'static str, encountered: Option<&'static str> },
}

/// `GraphicsError` with its texts taken by their characters.
pub enum GraphicsErrorView {
    ModelAssetNotFound,
    MaterialAssetNotFound,
    TextureAssetNotFound,
    InvalidMesh,
    /// An asset error, whatever it was.
    AssetError,
    WgslTreeSitterLanguageError,
    WgslTreeSitterParseError,
    WgslMissingTypeDecl,
    WgslParseSourceStringError,
    WgslMissingAttribute,
    WgslAddressSpaceParseError,
    WgslAccessModeParseError,
    WgslParseError { expected: Seq<char>, encountered: Option<Seq<char>> },
}

impl View for GraphicsError {
    type V = GraphicsErrorView;

    open spec fn view(&self) -> GraphicsErrorView {
        match self {
            GraphicsError::ModelAssetNotFound => GraphicsErrorView::ModelAssetNotFound,
            GraphicsError::MaterialAssetNotFound => GraphicsErrorView::MaterialAssetNotFound,
            GraphicsError::TextureAssetNotFound => GraphicsErrorView::TextureAssetNotFound,
            GraphicsError::InvalidMesh => GraphicsErrorView::InvalidMesh,
            GraphicsError::AssetError(_) => GraphicsErrorView::AssetError,
            GraphicsError::WgslTreeSitterLanguageError => GraphicsErrorView::WgslTreeSitterLanguageError,
            GraphicsError::WgslTreeSitterParseError => GraphicsErrorView::WgslTreeSitterParseError,
            GraphicsError::WgslMissingTypeDecl => GraphicsErrorView::WgslMissingTypeDecl,
            GraphicsError::WgslParseSourceStringError => GraphicsErrorView::WgslParseSourceStringError,
            GraphicsError::WgslMissingAttribute => GraphicsErrorView::WgslMissingAttribute,
            GraphicsError::WgslAddressSpaceParseError => GraphicsErrorView::WgslAddressSpaceParseError,
            GraphicsError::WgslAccessModeParseError => GraphicsErrorView::WgslAccessModeParseError,
            GraphicsError::WgslParseError { expected, encountered } => GraphicsErrorView::WgslParseError {
                expected: expected@,
                encountered: match encountered {
                    Some(k) => Some(k@),
                    None => None,
                },
            },
        }
    }
}

} // verus!
