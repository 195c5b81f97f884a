use vstd::prelude::*;

verus! {

/// The stage a shader is compiled for.
#[derive(Clone, Copy, Debug, PartialEq, Eq, Structural)]
pub enum ShaderType {
    VertexShader,
    FragmentShader,
}

/// True when each stage of a program is empty or holds a shader of its own
/// kind; a program is linked only then.
pub fn stages_match(vertex: Option<ShaderType>, fragment: Option<ShaderType>) -> (r: bool)
    ensures
        r == ((vertex is None || vertex == Some(ShaderType::VertexShader)) && (fragment is None
            || fragment == Some(ShaderType::FragmentShader))),
{
    let v = match vertex {
        Some(ShaderType::VertexShader) | None => true,
        Some(ShaderType::FragmentShader) => false,
    };
    let f = match fragment {
        Some(ShaderType::FragmentShader) | None => true,
        Some(ShaderType::VertexShader) => false,
    };
    v && f
}

/// What a GPU buffer is used for.
#[derive(Clone, Copy, Debug, PartialEq, Eq, Structural)]
pub enum BufferUsage {
    Vertex,
    Index,
    Uniform,
    TransformFeedback,
    TransferSrc,
    TransferDst,
}

/// The storage hint a buffer is allocated with.
#[derive(Clone, Copy, Debug, PartialEq, Eq, Structural)]
pub enum StoreType {
    StaticDraw,
    StreamDraw,
    StreamCopy,
    StaticRead,
}

pub open spec fn store_type_of(usage: BufferUsage) -> StoreType {
    match usage {
        BufferUsage::Vertex => StoreType::StaticDraw,
        BufferUsage::Index => StoreType::StaticDraw,
        BufferUsage::Uniform => StoreType::StreamDraw,
        BufferUsage::TransformFeedback => StoreType::StreamCopy,
        BufferUsage::TransferSrc => StoreType::StaticDraw,
        BufferUsage::TransferDst => StoreType::StaticRead,
    }
}

/// The storage hint for a buffer of usage `usage`: geometry and upload
/// sources are written once, uniforms every frame, feedback is copied, and
/// download targets are read.
pub fn usage_to_store_type(usage: BufferUsage) -> (r: StoreType)
    ensures
        r == store_type_of(usage),
{
    match usage {
        BufferUsage::Vertex => StoreType::StaticDraw,
        BufferUsage::Index => StoreType::StaticDraw,
        BufferUsage::Uniform => StoreType::StreamDraw,
        BufferUsage::TransformFeedback => StoreType::StreamCopy,
        BufferUsage::TransferSrc => StoreType::StaticDraw,
        BufferUsage::TransferDst => StoreType::StaticRead,
    }
}

/// True when writing `len` bytes at byte offset `offset` stays inside a
/// buffer of `reserved` bytes.
pub fn write_in_bounds(offset: i32, len: usize, reserved: i32) -> (r: bool)
    ensures
        r == (0 <= offset && offset + len <= reserved),
{
    if offset < 0 {
        return false;
    }
    let room = (reserved as i64) - (offset as i64);
    room >= 0 && (len as u64) <= (room as u64)
}

} // verus!
