//! Geometry binding: typed vertex attribute and index data uploaded into GPU
//! buffers and wired to the locations a shader resolved.
//!
//! Float components are held as their 32-bit bit patterns (`u32`), the form
//! in which they are uploaded; the upload payload is their little-endian
//! bytes, as a 32-bit-float array lays them out.

use vstd::prelude::*;
use web_sys::WebGlProgram;
use web_sys::WebGlRenderingContext;

use crate::error::BindError;
use crate::error::GpuResource;
use crate::error::is_alloc_error;
use crate::gl::ARRAY_BUFFER_TARGET;
use crate::gl::ELEMENT_ARRAY_BUFFER_TARGET;
use crate::gl::FLOAT_COMPONENT_TYPE;
use crate::gl::gl_bind_buffer;
use crate::gl::gl_buffer_data;
use crate::gl::gl_create_buffer;
use crate::gl::gl_enable_vertex_attrib_array;
use crate::gl::gl_get_attrib_location;
use crate::gl::gl_vertex_attrib_pointer;
use crate::shader::Shader;
use crate::table::clone_bytes;

verus! {

/// Advisory update-frequency hint for a GPU buffer, chosen at creation time.
#[derive(Clone, Copy, PartialEq, Eq, Structural, Debug)]
pub enum BufferUsage {
    Static,
    Dynamic,
    Stream,
}

impl BufferUsage {
    /// The context's binding constant for this hint.
    pub open spec fn spec_as_u32(&self) -> u32 {
        match self {
            BufferUsage::Static => 35044u32,
            BufferUsage::Dynamic => 35048u32,
            BufferUsage::Stream => 35040u32,
        }
    }

    /// The context's binding constant for this hint: `STATIC_DRAW`,
    /// `DYNAMIC_DRAW` or `STREAM_DRAW`.
    pub fn as_u32(&self) -> (r: u32)
        ensures
            r == self.spec_as_u32(),
    {
        match self {
            BufferUsage::Static => 35044,
            BufferUsage::Dynamic => 35048,
            BufferUsage::Stream => 35040,
        }
    }
}

/// The four little-endian bytes of a 32-bit word.
pub open spec fn le_bytes32(w: u32) -> Seq<u8> {
    seq![
        (w & 0xff) as u8,
        ((w >> 8) & 0xff) as u8,
        ((w >> 16) & 0xff) as u8,
        ((w >> 24) & 0xff) as u8,
    ]
}

/// The two little-endian bytes of a 16-bit word.
pub open spec fn le_bytes16(w: u16) -> Seq<u8> {
    seq![(w & 0xff) as u8, ((w >> 8) & 0xff) as u8]
}

/// The upload payload of a sequence of 32-bit float bit patterns: each word's
/// little-endian bytes, in order.
pub open spec fn vertex_payload(data: Seq<u32>) -> Seq<u8>
    decreases data.len(),
{
    if data.len() == 0 {
        Seq::empty()
    } else {
        vertex_payload(data.drop_last()) + le_bytes32(data.last())
    }
}

/// The upload payload of a sequence of 16-bit indices: each index's
/// little-endian bytes, in order.
pub open spec fn index_payload(data: Seq<u16>) -> Seq<u8>
    decreases data.len(),
{
    if data.len() == 0 {
        Seq::empty()
    } else {
        index_payload(data.drop_last()) + le_bytes16(data.last())
    }
}

/// A vertex payload holds four bytes per component.
pub proof fn lemma_vertex_payload_len(data: Seq<u32>)
    ensures
        vertex_payload(data).len() == 4 * data.len(),
    decreases data.len(),
{
    if data.len() > 0 {
        lemma_vertex_payload_len(data.drop_last());
    }
}

/// An index payload holds two bytes per index.
pub proof fn lemma_index_payload_len(data: Seq<u16>)
    ensures
        index_payload(data).len() == 2 * data.len(),
    decreases data.len(),
{
    if data.len() > 0 {
        lemma_index_payload_len(data.drop_last());
    }
}

proof fn lemma_u32_byte_masks(w: u32)
    ensures
        w & 0xff < 256,
        (w >> 8) & 0xff < 256,
        (w >> 16) & 0xff < 256,
        (w >> 24) & 0xff < 256,
{
    assert(w & 0xff < 256 && (w >> 8) & 0xff < 256 && (w >> 16) & 0xff < 256 && (w >> 24) & 0xff
        < 256) by (bit_vector);
}

proof fn lemma_u16_byte_masks(w: u16)
    ensures
        w & 0xff < 256,
        (w >> 8) & 0xff < 256,
{
    assert(w & 0xff < 256 && (w >> 8) & 0xff < 256) by (bit_vector);
}

/// The bytes uploaded for float-bit vertex data, little-endian per component.
pub fn vertex_bytes(data: &Vec<u32>) -> (r: Vec<u8>)
    ensures
        r@ == vertex_payload(data@),
{
    let mut out: Vec<u8> = Vec::new();
    let mut k: usize = 0;
    proof {
        assert(data@.take(0) =~= Seq::<u32>::empty());
    }
    while k < data.len()
        invariant
            0 <= k <= data@.len(),
            out@ == vertex_payload(data@.take(k as int)),
        decreases data@.len() - k,
    {
        let w = data[k];
        proof {
            lemma_u32_byte_masks(w);
        }
        out.push((w & 0xff) as u8);
        out.push(((w >> 8) & 0xff) as u8);
        out.push(((w >> 16) & 0xff) as u8);
        out.push(((w >> 24) & 0xff) as u8);
        proof {
            assert(data@.take(k + 1).drop_last() =~= data@.take(k as int));
            assert(data@.take(k + 1).last() == data@[k as int]);
            assert(out@ =~= vertex_payload(data@.take(k as int)) + le_bytes32(data@[k as int]));
        }
        k += 1;
    }
    proof {
        assert(data@.take(data@.len() as int) =~= data@);
    }
    out
}

/// The bytes uploaded for 16-bit index data, little-endian per index.
pub fn index_bytes(data: &Vec<u16>) -> (r: Vec<u8>)
    ensures
        r@ == index_payload(data@),
{
    let mut out: Vec<u8> = Vec::new();
    let mut k: usize = 0;
    proof {
        assert(data@.take(0) =~= Seq::<u16>::empty());
    }
    while k < data.len()
        invariant
            0 <= k <= data@.len(),
            out@ == index_payload(data@.take(k as int)),
        decreases data@.len() - k,
    {
        let w = data[k];
        proof {
            lemma_u16_byte_masks(w);
        }
        out.push((w & 0xff) as u8);
        out.push(((w >> 8) & 0xff) as u8);
        proof {
            assert(data@.take(k + 1).drop_last() =~= data@.take(k as int));
            assert(data@.take(k + 1).last() == data@[k as int]);
            assert(out@ =~= index_payload(data@.take(k as int)) + le_bytes16(data@[k as int]));
        }
        k += 1;
    }
    proof {
        assert(data@.take(data@.len() as int) =~= data@);
    }
    out
}

/// One per-vertex input: a named flat sequence of 32-bit float components
/// (held as bit patterns), logically grouped into records of `num_component`
/// components each. Immutable after construction.
pub struct Attribute {
    pub name: Vec<u8>,
    pub data: Vec<u32>,
    pub buffer_usage: BufferUsage,
    pub num_component: u8,
    pub stride: Option<u8>,
}

impl Attribute {
    /// The data splits into whole records of `num_component` components.
    pub open spec fn wf(&self) -> bool {
        &&& 1 <= self.num_component <= 4
        &&& (self.data@.len() as int) % (self.num_component as int) == 0
    }

    pub fn new(
        name: Vec<u8>,
        data: Vec<u32>,
        buffer_usage: BufferUsage,
        num_component: u8,
        stride: Option<u8>,
    ) -> (r: Self)
        requires
            1 <= num_component <= 4,
            (data@.len() as int) % (num_component as int) == 0,
        ensures
            r.wf(),
            r == (Attribute { name, data, buffer_usage, num_component, stride }),
    {
        Attribute { name, data, buffer_usage, num_component, stride }
    }

    /// The byte stride between records: an unspecified stride is 0, tight
    /// packing inferred by the driver.
    pub fn get_stride(&self) -> (r: u8)
        ensures
            r == (match self.stride {
                Some(s) => s,
                None => 0u8,
            }),
    {
        match self.stride {
            Some(s) => s,
            None => 0,
        }
    }

    /// The source-level attribute name.
    pub fn get_name(&self) -> (r: &Vec<u8>)
        ensures
            r@ == self.name@,
    {
        &self.name
    }

    /// The flat component data, as 32-bit float bit patterns.
    pub fn get_data(&self) -> (r: &Vec<u32>)
        ensures
            r@ == self.data@,
    {
        &self.data
    }

    /// Resolve this attribute's name to a location by querying the program
    /// directly, independently of the shader's own reflection table; the
    /// driver's answer (`-1` for an eliminated name) is taken as is.
    pub fn get_attrib_location(&self, gl: &WebGlRenderingContext, program: &WebGlProgram) -> u32 {
        let loc = gl_get_attrib_location(gl, program, &self.name);
        #[verifier::truncate] (loc as u32)
    }

    /// The context's binding constant for this attribute's usage hint.
    pub fn get_buffer_usage(&self) -> (r: u32)
        ensures
            r == self.buffer_usage.spec_as_u32(),
    {
        self.buffer_usage.as_u32()
    }
}

/// Index data: unsigned 16-bit values, not interpreted by this layer.
pub struct Indices {
    pub data: Vec<u16>,
    pub buffer_usage: BufferUsage,
}

impl Indices {
    pub fn new(data: Vec<u16>, buffer_usage: BufferUsage) -> (r: Self)
        ensures
            r == (Indices { data, buffer_usage }),
    {
        Indices { data, buffer_usage }
    }

    /// The index values, in order.
    pub fn get_data(&self) -> (r: &Vec<u16>)
        ensures
            r@ == self.data@,
    {
        &self.data
    }

    /// The context's binding constant for this data's usage hint.
    pub fn get_buffer_usage(&self) -> (r: u32)
        ensures
            r == self.buffer_usage.spec_as_u32(),
    {
        self.buffer_usage.as_u32()
    }
}

/// A draw-ready mesh: a shader, a mandatory position attribute, optional
/// further attributes, and optional indices, all uploaded and bound at
/// construction.
pub struct Mesh {
    pub name: Vec<u8>,
    pub shader: Shader,
    pub position_attr: Attribute,
    pub normal_attr: Option<Attribute>,
    pub color_attr: Option<Attribute>,
    pub texture_attr: Option<Attribute>,
    pub indices: Option<Indices>,
}

impl Mesh {
    /// Upload every present attribute and the indices, short-circuiting on
    /// the first failure, and assemble the mesh. Fails atomically with a
    /// `ResourceAllocation` error carrying the mesh name; on success the mesh
    /// owns the shader and every value passed in, unchanged.
    pub fn new(
        gl: &WebGlRenderingContext,
        name: Vec<u8>,
        shader: Shader,
        position_attr: Attribute,
        normal_attr: Option<Attribute>,
        color_attr: Option<Attribute>,
        texture_attr: Option<Attribute>,
        indices: Option<Indices>,
    ) -> (r: Result<Mesh, BindError>)
        ensures
            match r {
                Ok(m) => m == (Mesh {
                    name,
                    shader,
                    position_attr,
                    normal_attr,
                    color_attr,
                    texture_attr,
                    indices,
                }),
                Err(e) => is_alloc_error(e, GpuResource::VertexBuffer, name@) || is_alloc_error(
                    e,
                    GpuResource::IndexBuffer,
                    name@,
                ),
            },
    {
        match Self::init_vertex_data(gl, &shader, &name, &position_attr) {
            Ok(_) => (),
            Err(e) => {
                return Err(e);
            },
        }

        match normal_attr {
            Some(ref attr) => {
                match Self::init_vertex_data(gl, &shader, &name, attr) {
                    Ok(_) => (),
                    Err(e) => {
                        return Err(e);
                    },
                }
            },
            None => (),
        }

        match color_attr {
            Some(ref attr) => {
                match Self::init_vertex_data(gl, &shader, &name, attr) {
                    Ok(_) => (),
                    Err(e) => {
                        return Err(e);
                    },
                }
            },
            None => (),
        }

        match texture_attr {
            Some(ref attr) => {
                match Self::init_vertex_data(gl, &shader, &name, attr) {
                    Ok(_) => (),
                    Err(e) => {
                        return Err(e);
                    },
                }
            },
            None => (),
        }

        match indices {
            Some(ref idx) => {
                match Self::init_indices(gl, &name, idx) {
                    Ok(_) => (),
                    Err(e) => {
                        return Err(e);
                    },
                }
            },
            None => (),
        }

        Ok(
            Mesh {
                name,
                shader,
                position_attr,
                normal_attr,
                color_attr,
                texture_attr,
                indices,
            },
        )
    }

    /// Upload one attribute: allocate a buffer, bind it as the vertex-array
    /// buffer, upload the component bytes with the usage hint, describe the
    /// layout at the resolved location (32-bit float components, not
    /// normalized, the attribute's stride, offset 0), and enable the array.
    fn init_vertex_data(
        gl: &WebGlRenderingContext,
        shader: &Shader,
        mesh_name: &Vec<u8>,
        attr: &Attribute,
    ) -> (r: Result<(), BindError>)
        ensures
            match r {
                Ok(_) => true,
                Err(e) => is_alloc_error(e, GpuResource::VertexBuffer, mesh_name@),
            },
    {
        let vbo = match gl_create_buffer(gl) {
            Some(b) => b,
            None => {
                return Err(
                    BindError::ResourceAllocation {
                        resource: GpuResource::VertexBuffer,
                        name: clone_bytes(mesh_name),
                    },
                );
            },
        };

        let payload = vertex_bytes(attr.get_data());

        gl_bind_buffer(gl, ARRAY_BUFFER_TARGET, &vbo);
        gl_buffer_data(gl, ARRAY_BUFFER_TARGET, &payload, attr.get_buffer_usage());

        let attr_pos = attr.get_attrib_location(gl, shader.get_program());

        gl_vertex_attrib_pointer(
            gl,
            attr_pos,
            attr.num_component as i32,
            FLOAT_COMPONENT_TYPE,
            false,
            attr.get_stride() as i32,
            0,
        );
        gl_enable_vertex_attrib_array(gl, attr_pos);

        Ok(())
    }

    /// Upload the index data: allocate a buffer, bind it as the element-array
    /// buffer, and upload the index bytes with the usage hint.
    fn init_indices(gl: &WebGlRenderingContext, mesh_name: &Vec<u8>, indices: &Indices) -> (r:
        Result<(), BindError>)
        ensures
            match r {
                Ok(_) => true,
                Err(e) => is_alloc_error(e, GpuResource::IndexBuffer, mesh_name@),
            },
    {
        let index_buffer = match gl_create_buffer(gl) {
            Some(b) => b,
            None => {
                return Err(
                    BindError::ResourceAllocation {
                        resource: GpuResource::IndexBuffer,
                        name: clone_bytes(mesh_name),
                    },
                );
            },
        };

        gl_bind_buffer(gl, ELEMENT_ARRAY_BUFFER_TARGET, &index_buffer);

        let payload = index_bytes(indices.get_data());

        gl_buffer_data(gl, ELEMENT_ARRAY_BUFFER_TARGET, &payload, indices.get_buffer_usage());

        Ok(())
    }
}

} // verus!
