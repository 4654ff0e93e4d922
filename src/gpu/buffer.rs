//! Buffer records: vertex, element (index), instance and uniform buffers.
use vstd::prelude::*;
use vstd::string::StringExecFns;
pub use crate::enums::{BufferType, BufferUsage};
use crate::text::{decimal, optional_name_text, push_decimal, push_optional_name};

verus! {

/// The usage hint that a host names: `dynamic_draw` and `stream_draw` select
/// those hints, and every other name selects `StaticDraw`.
pub open spec fn usage_named(name: Seq<char>) -> BufferUsage {
    if name == "dynamic_draw"@ {
        BufferUsage::DynamicDraw
    } else if name == "stream_draw"@ {
        BufferUsage::StreamDraw
    } else {
        BufferUsage::StaticDraw
    }
}

/// The name of a usage hint, as the host writes it.
pub open spec fn usage_name(u: BufferUsage) -> Seq<char> {
    match u {
        BufferUsage::StaticDraw => "static_draw"@,
        BufferUsage::DynamicDraw => "dynamic_draw"@,
        BufferUsage::StreamDraw => "stream_draw"@,
        BufferUsage::StaticRead => "static_read"@,
        BufferUsage::DynamicRead => "dynamic_read"@,
        BufferUsage::StreamRead => "stream_read"@,
        BufferUsage::StaticCopy => "static_copy"@,
        BufferUsage::DynamicCopy => "dynamic_copy"@,
        BufferUsage::StreamCopy => "stream_copy"@,
    }
}

/// Selects the usage hint that a host names.
pub fn parse_usage(name: &String) -> (r: BufferUsage)
    ensures
        r == usage_named(name@),
{
    if *name == String::from_str("dynamic_draw") {
        BufferUsage::DynamicDraw
    } else if *name == String::from_str("stream_draw") {
        BufferUsage::StreamDraw
    } else {
        BufferUsage::StaticDraw
    }
}

/// The name of a usage hint, as the host writes it.
pub fn usage_string(u: BufferUsage) -> (r: String)
    ensures
        r@ == usage_name(u),
{
    match u {
        BufferUsage::StaticDraw => String::from_str("static_draw"),
        BufferUsage::DynamicDraw => String::from_str("dynamic_draw"),
        BufferUsage::StreamDraw => String::from_str("stream_draw"),
        BufferUsage::StaticRead => String::from_str("static_read"),
        BufferUsage::DynamicRead => String::from_str("dynamic_read"),
        BufferUsage::StreamRead => String::from_str("stream_read"),
        BufferUsage::StaticCopy => String::from_str("static_copy"),
        BufferUsage::DynamicCopy => String::from_str("dynamic_copy"),
        BufferUsage::StreamCopy => String::from_str("stream_copy"),
    }
}

/// Per-vertex data such as positions, normals and colors.
pub struct VertexBuffer {
    buffer_type: String,
    name: Option<String>,
    /// Number of vertices.
    pub vertex_count: u32,
    usage: Option<BufferUsage>,
}

impl VertexBuffer {
    /// The `vertex_count` field.
    pub closed spec fn vertex_count(&self) -> u32 {
        self.vertex_count
    }

    /// The buffer's name, if it was given one.
    pub closed spec fn name(&self) -> Option<String> {
        self.name
    }

    /// The usage hint, if one was given.
    pub closed spec fn usage(&self) -> Option<BufferUsage> {
        self.usage
    }

    /// The buffer kind's name.
    pub closed spec fn kind(&self) -> Seq<char> {
        self.buffer_type@
    }

    /// Creates a vertex buffer. A usage named `dynamic_draw` or `stream_draw`
    /// selects that hint; any other name selects `StaticDraw`.
    pub fn new(name: Option<String>, vertex_count: u32, usage: Option<String>) -> (r: Self)
        ensures
            r.name() == name,
            r.vertex_count() == vertex_count,
            r.usage() == match usage {
                Some(u) => Some(usage_named(u@)),
                None => None,
            },
            r.kind() == "Vertex"@,
    {
        let buffer_usage = match &usage {
            Some(u) => Some(parse_usage(u)),
            None => None,
        };
        VertexBuffer {
            buffer_type: String::from_str("Vertex"),
            name,
            vertex_count,
            usage: buffer_usage,
        }
    }

    /// The usage hint by name; `static_draw` when none was given.
    pub fn get_usage(&self) -> (r: String)
        ensures
            r@ == match self.usage() {
                Some(u) => usage_name(u),
                None => usage_name(BufferUsage::StaticDraw),
            },
    {
        match self.usage {
            Some(u) => usage_string(u),
            None => usage_string(BufferUsage::StaticDraw),
        }
    }

    /// `VertexBuffer(name=<name:?>, count=<count>, usage=<usage>)`.
    pub fn get_info(&self) -> (r: String)
        ensures
            r@ == "VertexBuffer(name="@ + optional_name_text(self.name()) + ", count="@
                + decimal(self.vertex_count() as nat) + ", usage="@ + match self.usage() {
                Some(u) => usage_name(u),
                None => usage_name(BufferUsage::StaticDraw),
            } + ")"@,
    {
        let mut s = String::from_str("VertexBuffer(name=");
        push_optional_name(&mut s, &self.name);
        s.append(", count=");
        push_decimal(&mut s, self.vertex_count as u64);
        s.append(", usage=");
        let u = self.get_usage();
        s.append(u.as_str());
        s.append(")");
        s
    }

    /// Whether the buffer holds any vertex.
    pub fn is_valid(&self) -> (r: bool)
        ensures
            r == (self.vertex_count() > 0),
    {
        self.vertex_count > 0
    }

    /// Estimated memory use: 12 bytes per vertex (three 4-byte floats).
    pub fn estimate_size_bytes(&self) -> (r: u64)
        ensures
            r == self.vertex_count() * 12,
    {
        self.vertex_count as u64 * 12
    }

    /// The buffer kind's name: `Vertex`.
    pub fn get_buffer_type(&self) -> (r: String)
        ensures
            r@ == self.kind(),
    {
        self.buffer_type.clone()
    }
}

/// Vertex indices for indexed rendering.
pub struct ElementBuffer {
    buffer_type: String,
    name: Option<String>,
    /// Number of indices.
    pub index_count: u32,
    usage: Option<BufferUsage>,
}

impl ElementBuffer {
    /// The `index_count` field.
    pub closed spec fn index_count(&self) -> u32 {
        self.index_count
    }

    /// The buffer's name, if it was given one.
    pub closed spec fn name(&self) -> Option<String> {
        self.name
    }

    /// The usage hint, if one was given.
    pub closed spec fn usage(&self) -> Option<BufferUsage> {
        self.usage
    }

    /// The buffer kind's name.
    pub closed spec fn kind(&self) -> Seq<char> {
        self.buffer_type@
    }

    /// Creates a element buffer. A usage named `dynamic_draw` or `stream_draw`
    /// selects that hint; any other name selects `StaticDraw`.
    pub fn new(name: Option<String>, index_count: u32, usage: Option<String>) -> (r: Self)
        ensures
            r.name() == name,
            r.index_count() == index_count,
            r.usage() == match usage {
                Some(u) => Some(usage_named(u@)),
                None => None,
            },
            r.kind() == "Element"@,
    {
        let buffer_usage = match &usage {
            Some(u) => Some(parse_usage(u)),
            None => None,
        };
        ElementBuffer {
            buffer_type: String::from_str("Element"),
            name,
            index_count,
            usage: buffer_usage,
        }
    }

    /// The usage hint by name; `static_draw` when none was given.
    pub fn get_usage(&self) -> (r: String)
        ensures
            r@ == match self.usage() {
                Some(u) => usage_name(u),
                None => usage_name(BufferUsage::StaticDraw),
            },
    {
        match self.usage {
            Some(u) => usage_string(u),
            None => usage_string(BufferUsage::StaticDraw),
        }
    }

    /// `ElementBuffer(name=<name:?>, count=<count>, usage=<usage>)`.
    pub fn get_info(&self) -> (r: String)
        ensures
            r@ == "ElementBuffer(name="@ + optional_name_text(self.name()) + ", count="@
                + decimal(self.index_count() as nat) + ", usage="@ + match self.usage() {
                Some(u) => usage_name(u),
                None => usage_name(BufferUsage::StaticDraw),
            } + ")"@,
    {
        let mut s = String::from_str("ElementBuffer(name=");
        push_optional_name(&mut s, &self.name);
        s.append(", count=");
        push_decimal(&mut s, self.index_count as u64);
        s.append(", usage=");
        let u = self.get_usage();
        s.append(u.as_str());
        s.append(")");
        s
    }

    /// Whether the buffer holds any index.
    pub fn is_valid(&self) -> (r: bool)
        ensures
            r == (self.index_count() > 0),
    {
        self.index_count > 0
    }

    /// Estimated memory use: 4 bytes per index (32-bit indices).
    pub fn estimate_size_bytes(&self) -> (r: u64)
        ensures
            r == self.index_count() * 4,
    {
        self.index_count as u64 * 4
    }

    /// The buffer kind's name: `Element`.
    pub fn get_buffer_type(&self) -> (r: String)
        ensures
            r@ == self.kind(),
    {
        self.buffer_type.clone()
    }
}

/// Per-instance data (typically one 4x4 transform per instance) for instanced
/// rendering. Values are binary64 bit patterns.
pub struct InstanceBuffer {
    buffer_type: String,
    name: Option<String>,
    /// Number of instances.
    pub instance_count: u32,
    /// Instance data, when the host provides it.
    pub instance_data: Option<Vec<u64>>,
}

impl InstanceBuffer {
    /// The `instance_count` field.
    pub closed spec fn instance_count(&self) -> u32 {
        self.instance_count
    }

    /// The `instance_data` field.
    pub closed spec fn instance_data(&self) -> Option<Vec<u64>> {
        self.instance_data
    }

    /// The buffer's name, if it was given one.
    pub closed spec fn name(&self) -> Option<String> {
        self.name
    }

    /// The buffer kind's name.
    pub closed spec fn kind(&self) -> Seq<char> {
        self.buffer_type@
    }

    /// Creates an instance buffer.
    pub fn new(name: Option<String>, instance_count: u32, instance_data: Option<Vec<u64>>) -> (r: Self)
        ensures
            r.name() == name,
            r.instance_count() == instance_count,
            r.instance_data() == instance_data,
            r.kind() == "Instance"@,
    {
        InstanceBuffer { buffer_type: String::from_str("Instance"), name, instance_count, instance_data }
    }

    /// `InstanceBuffer(name=<name:?>, count=<count>)`.
    pub fn get_info(&self) -> (r: String)
        ensures
            r@ == "InstanceBuffer(name="@ + optional_name_text(self.name()) + ", count="@
                + decimal(self.instance_count() as nat) + ")"@,
    {
        let mut s = String::from_str("InstanceBuffer(name=");
        push_optional_name(&mut s, &self.name);
        s.append(", count=");
        push_decimal(&mut s, self.instance_count as u64);
        s.append(")");
        s
    }

    /// Whether the buffer holds any instance.
    pub fn is_valid(&self) -> (r: bool)
        ensures
            r == (self.instance_count() > 0),
    {
        self.instance_count > 0
    }

    /// Estimated memory use: 8 bytes per value of the instance data, or, without
    /// data, 128 bytes (sixteen doubles) per instance.
    pub fn estimate_size_bytes(&self) -> (r: u64)
        requires
            self.instance_data() matches Some(d) ==> d@.len() * 8 <= u64::MAX,
        ensures
            r == match self.instance_data() {
                Some(d) => d@.len() * 8 as int,
                None => self.instance_count() * 128,
            },
    {
        match &self.instance_data {
            Some(data) => data.len() as u64 * 8,
            None => self.instance_count as u64 * 128,
        }
    }

    /// The buffer kind's name: `Instance`.
    pub fn get_buffer_type(&self) -> (r: String)
        ensures
            r@ == self.kind(),
    {
        self.buffer_type.clone()
    }
}

/// A uniform buffer: uniforms shared by several shader programs.
pub struct UniformBuffer {
    buffer_type: String,
    name: Option<String>,
    /// The binding point it is attached to.
    pub binding_point: u32,
    /// Size in bytes.
    pub size_bytes: u32,
}

impl UniformBuffer {
    /// The `binding_point` field.
    pub closed spec fn binding_point(&self) -> u32 {
        self.binding_point
    }

    /// The `size_bytes` field.
    pub closed spec fn size_bytes(&self) -> u32 {
        self.size_bytes
    }

    /// The buffer's name, if it was given one.
    pub closed spec fn name(&self) -> Option<String> {
        self.name
    }

    /// The buffer kind's name.
    pub closed spec fn kind(&self) -> Seq<char> {
        self.buffer_type@
    }

    /// Creates a uniform buffer; its size defaults to 0.
    pub fn new(name: Option<String>, binding_point: u32, size_bytes: Option<u32>) -> (r: Self)
        ensures
            r.name() == name,
            r.binding_point() == binding_point,
            r.size_bytes() == match size_bytes {
                Some(n) => n,
                None => 0u32,
            },
            r.kind() == "Uniform"@,
    {
        UniformBuffer {
            buffer_type: String::from_str("Uniform"),
            name,
            binding_point,
            size_bytes: match size_bytes {
                Some(n) => n,
                None => 0,
            },
        }
    }

    /// `UniformBuffer(name=<name:?>, binding=<binding>, size=<size> bytes)`.
    pub fn get_info(&self) -> (r: String)
        ensures
            r@ == "UniformBuffer(name="@ + optional_name_text(self.name()) + ", binding="@
                + decimal(self.binding_point() as nat) + ", size="@ + decimal(self.size_bytes() as nat)
                + " bytes)"@,
    {
        let mut s = String::from_str("UniformBuffer(name=");
        push_optional_name(&mut s, &self.name);
        s.append(", binding=");
        push_decimal(&mut s, self.binding_point as u64);
        s.append(", size=");
        push_decimal(&mut s, self.size_bytes as u64);
        s.append(" bytes)");
        s
    }

    /// The buffer kind's name: `Uniform`.
    pub fn get_buffer_type(&self) -> (r: String)
        ensures
            r@ == self.kind(),
    {
        self.buffer_type.clone()
    }

    /// Whether the buffer has any size.
    pub fn is_valid(&self) -> (r: bool)
        ensures
            r == (self.size_bytes() > 0),
    {
        self.size_bytes > 0
    }

    /// Size in bytes.
    pub fn get_size_bytes(&self) -> (r: u32)
        ensures
            r == self.size_bytes(),
    {
        self.size_bytes
    }
}

} // verus!
