//! Program construction: compile both stages, link, and reflect the source
//! for attribute and uniform declarations resolved to driver locations.

use vstd::prelude::*;
use web_sys::WebGlProgram;
use web_sys::WebGlRenderingContext;
use web_sys::WebGlShader;
use web_sys::WebGlUniformLocation;

use crate::error::BindError;
use crate::error::GpuResource;
use crate::error::ShaderStage;
use crate::error::compile_outcome;
use crate::error::is_alloc_error;
use crate::error::is_compile_error;
use crate::error::is_link_error;
use crate::error::link_outcome;
use crate::gl::FRAGMENT_SHADER_KIND;
use crate::gl::VERTEX_SHADER_KIND;
use crate::gl::gl_attach_shader;
use crate::gl::gl_compile_shader;
use crate::gl::gl_create_program;
use crate::gl::gl_create_shader;
use crate::gl::gl_delete_shader;
use crate::gl::gl_get_attrib_location;
use crate::gl::gl_get_compile_status;
use crate::gl::gl_get_link_status;
use crate::gl::gl_get_program_info_log;
use crate::gl::gl_get_shader_info_log;
use crate::gl::gl_get_uniform_location;
use crate::gl::gl_link_program;
use crate::gl::gl_shader_source;
use crate::gl::gl_use_program;
use crate::gl::gl_validate_program;
use crate::reflect::attribute_kw;
use crate::reflect::attribute_keyword;
use crate::reflect::declared_names;
use crate::reflect::scan_declarations;
use crate::reflect::uniform_kw;
use crate::reflect::uniform_keyword;
use crate::table::LocationTable;
use crate::table::build_table;
use crate::table::clone_bytes;
use crate::table::table_map;

verus! {

/// The attribute location table reflected from `src`: absent exactly when the
/// source declares no attribute, and otherwise built from the declared names
/// and some sequence of driver answers, where `-1` marks an eliminated name.
pub open spec fn attribute_table_ok(r: Option<LocationTable<i32>>, src: Seq<u8>) -> bool {
    &&& (r is Some <==> declared_names(src, attribute_kw()).len() > 0)
    &&& match r {
        Some(t) => t.wf() && (exists|locs: Seq<Option<i32>>|
            locs.len() == declared_names(src, attribute_kw()).len() && t@ == table_map(
                declared_names(src, attribute_kw()),
                locs,
            )),
        None => true,
    }
}

/// The uniform location table reflected from `src`: absent exactly when the
/// source declares no uniform, and otherwise built from the declared names
/// and some sequence of driver answers, where `None` marks an eliminated name.
pub open spec fn uniform_table_ok(
    r: Option<LocationTable<WebGlUniformLocation>>,
    src: Seq<u8>,
) -> bool {
    &&& (r is Some <==> declared_names(src, uniform_kw()).len() > 0)
    &&& match r {
        Some(t) => t.wf() && (exists|locs: Seq<Option<WebGlUniformLocation>>|
            locs.len() == declared_names(src, uniform_kw()).len() && t@ == table_map(
                declared_names(src, uniform_kw()),
                locs,
            )),
        None => true,
    }
}

/// A reflected attribute table holds no name the source does not declare:
/// whatever the driver answered, every key of the table is a declared name.
pub proof fn lemma_attribute_keys_declared(t: LocationTable<i32>, src: Seq<u8>)
    requires
        attribute_table_ok(Some(t), src),
    ensures
        forall|n: Seq<u8>| #[trigger] t@.contains_key(n) ==> declared_names(
            src,
            attribute_kw(),
        ).contains(n),
{
    let names = declared_names(src, attribute_kw());
    let locs = choose|locs: Seq<Option<i32>>|
        locs.len() == names.len() && t@ == table_map(names, locs);
    crate::table::lemma_table_map_exact(names, locs);
    assert forall|n: Seq<u8>| #[trigger] t@.contains_key(n) implies names.contains(n) by {
        let k = choose|k: int| 0 <= k < names.len() && names[k] == n && locs[k] is Some;
    }
}

/// A reflected uniform table holds no name the source does not declare:
/// whatever the driver answered, every key of the table is a declared name.
pub proof fn lemma_uniform_keys_declared(t: LocationTable<WebGlUniformLocation>, src: Seq<u8>)
    requires
        uniform_table_ok(Some(t), src),
    ensures
        forall|n: Seq<u8>| #[trigger] t@.contains_key(n) ==> declared_names(
            src,
            uniform_kw(),
        ).contains(n),
{
    let names = declared_names(src, uniform_kw());
    let locs = choose|locs: Seq<Option<WebGlUniformLocation>>|
        locs.len() == names.len() && t@ == table_map(names, locs);
    crate::table::lemma_table_map_exact(names, locs);
    assert forall|n: Seq<u8>| #[trigger] t@.contains_key(n) implies names.contains(n) by {
        let k = choose|k: int| 0 <= k < names.len() && names[k] == n && locs[k] is Some;
    }
}

/// A linked program with its reflected location tables. Each table is absent
/// when its stage declares nothing of that kind.
pub struct Shader {
    pub program: WebGlProgram,
    pub vertex_shader_uniform_locations: Option<LocationTable<WebGlUniformLocation>>,
    pub vertex_shader_attribute_locations: Option<LocationTable<i32>>,
    pub fragment_shader_uniform_locations: Option<LocationTable<WebGlUniformLocation>>,
}

impl Shader {
    /// Every present table has unique keys.
    pub open spec fn wf(&self) -> bool {
        &&& match self.vertex_shader_uniform_locations {
            Some(t) => t.wf(),
            None => true,
        }
        &&& match self.vertex_shader_attribute_locations {
            Some(t) => t.wf(),
            None => true,
        }
        &&& match self.fragment_shader_uniform_locations {
            Some(t) => t.wf(),
            None => true,
        }
    }

    /// Compile both stages, link them into a program, and reflect both
    /// sources into location tables. Fails atomically: on any error no
    /// Shader is returned, and the error carries the program name, the
    /// failing stage where one failed to compile, and the driver log.
    pub fn new(
        gl: &WebGlRenderingContext,
        program_name: &Vec<u8>,
        vertex_src: &Vec<u8>,
        fragment_src: &Vec<u8>,
    ) -> (r: Result<Shader, BindError>)
        ensures
            match r {
                Ok(s) => {
                    &&& s.wf()
                    &&& attribute_table_ok(s.vertex_shader_attribute_locations, vertex_src@)
                    &&& uniform_table_ok(s.vertex_shader_uniform_locations, vertex_src@)
                    &&& uniform_table_ok(s.fragment_shader_uniform_locations, fragment_src@)
                },
                Err(e) => {
                    ||| is_alloc_error(e, GpuResource::Program, program_name@)
                    ||| is_alloc_error(e, GpuResource::VertexStage, program_name@)
                    ||| is_alloc_error(e, GpuResource::FragmentStage, program_name@)
                    ||| is_compile_error(e, ShaderStage::Vertex, program_name@)
                    ||| is_compile_error(e, ShaderStage::Fragment, program_name@)
                    ||| is_link_error(e, program_name@)
                },
            },
    {
        let program = match gl_create_program(gl) {
            Some(p) => p,
            None => {
                return Err(
                    BindError::ResourceAllocation {
                        resource: GpuResource::Program,
                        name: clone_bytes(program_name),
                    },
                );
            },
        };

        let vs = match gl_create_shader(gl, VERTEX_SHADER_KIND) {
            Some(s) => s,
            None => {
                return Err(
                    BindError::ResourceAllocation {
                        resource: GpuResource::VertexStage,
                        name: clone_bytes(program_name),
                    },
                );
            },
        };

        match Self::compile_shader(gl, program_name, &vs, vertex_src, ShaderStage::Vertex) {
            Ok(()) => (),
            Err(e) => {
                return Err(e);
            },
        }

        let fs = match gl_create_shader(gl, FRAGMENT_SHADER_KIND) {
            Some(s) => s,
            None => {
                return Err(
                    BindError::ResourceAllocation {
                        resource: GpuResource::FragmentStage,
                        name: clone_bytes(program_name),
                    },
                );
            },
        };

        match Self::compile_shader(gl, program_name, &fs, fragment_src, ShaderStage::Fragment) {
            Ok(()) => (),
            Err(e) => {
                return Err(e);
            },
        }

        gl_attach_shader(gl, &program, &vs);
        gl_attach_shader(gl, &program, &fs);

        match Self::link_gpu_program(gl, program_name, &program) {
            Ok(()) => (),
            Err(e) => {
                return Err(e);
            },
        }

        // The program keeps the compiled code; the standalone stage objects
        // are no longer needed.
        gl_delete_shader(gl, &vs);
        gl_delete_shader(gl, &fs);

        let vertex_shader_uniform_locations = Self::get_uniform_locations(gl, &program, vertex_src);
        let vertex_shader_attribute_locations = Self::get_attribute_locations(
            gl,
            &program,
            vertex_src,
        );
        let fragment_shader_uniform_locations = Self::get_uniform_locations(
            gl,
            &program,
            fragment_src,
        );

        Ok(
            Shader {
                program,
                vertex_shader_uniform_locations,
                vertex_shader_attribute_locations,
                fragment_shader_uniform_locations,
            },
        )
    }

    /// Make this program the context's active program.
    pub fn use_shader(&self, gl: &WebGlRenderingContext) {
        gl_use_program(gl, &self.program);
    }

    /// The linked program handle.
    pub fn get_program(&self) -> (r: &WebGlProgram)
        ensures
            *r == self.program,
    {
        &self.program
    }

    /// Set a stage's source, compile it, and read the compile-status flag.
    /// On failure the stage object is released and the error carries the
    /// stage, the program name and the driver log.
    fn compile_shader(
        gl: &WebGlRenderingContext,
        program_name: &Vec<u8>,
        shader: &WebGlShader,
        shader_src: &Vec<u8>,
        shader_type: ShaderStage,
    ) -> (r: Result<(), BindError>)
        ensures
            match r {
                Ok(_) => true,
                Err(e) => is_compile_error(e, shader_type, program_name@),
            },
    {
        gl_shader_source(gl, shader, shader_src);
        gl_compile_shader(gl, shader);
        let status = gl_get_compile_status(gl, shader);
        if status {
            return Ok(());
        }
        let log = gl_get_shader_info_log(gl, shader);
        gl_delete_shader(gl, shader);
        compile_outcome(false, shader_type, clone_bytes(program_name), log)
    }

    /// Link and validate the program, then read the link-status flag. On
    /// failure the error carries the program name and the driver log.
    fn link_gpu_program(
        gl: &WebGlRenderingContext,
        program_name: &Vec<u8>,
        program: &WebGlProgram,
    ) -> (r: Result<(), BindError>)
        ensures
            match r {
                Ok(_) => true,
                Err(e) => is_link_error(e, program_name@),
            },
    {
        gl_link_program(gl, program);
        gl_validate_program(gl, program);
        let status = gl_get_link_status(gl, program);
        if status {
            return Ok(());
        }
        let log = gl_get_program_info_log(gl, program);
        link_outcome(false, clone_bytes(program_name), log)
    }

    /// Reflect `shader_src` for attribute declarations and resolve each name
    /// with the driver; a name the driver eliminated (`-1`) is skipped, and a
    /// name declared twice keeps its last resolution.
    pub fn get_attribute_locations(
        gl: &WebGlRenderingContext,
        program: &WebGlProgram,
        shader_src: &Vec<u8>,
    ) -> (r: Option<LocationTable<i32>>)
        ensures
            attribute_table_ok(r, shader_src@),
    {
        let kw = attribute_keyword();
        let names = scan_declarations(shader_src, &kw);
        let ghost names_v = names@.map_values(|n: Vec<u8>| n@);
        if names.len() == 0 {
            proof {
                assert(names_v.len() == 0);
            }
            return None;
        }
        let mut locs: Vec<Option<i32>> = Vec::new();
        let mut k: usize = 0;
        while k < names.len()
            invariant
                0 <= k <= names@.len(),
                locs@.len() == k,
            decreases names@.len() - k,
        {
            let loc = gl_get_attrib_location(gl, program, &names[k]);
            if loc != -1 {
                locs.push(Some(loc));
            } else {
                locs.push(None);
            }
            k += 1;
        }
        let ghost glocs = locs@;
        let table = build_table(&names, locs);
        proof {
            assert(glocs.len() == names_v.len() && table@ == table_map(names_v, glocs));
        }
        Some(table)
    }

    /// Reflect `shader_src` for uniform declarations and resolve each name
    /// with the driver; a name the driver eliminated (`None`) is skipped, and
    /// a name declared twice keeps its last resolution.
    pub fn get_uniform_locations(
        gl: &WebGlRenderingContext,
        program: &WebGlProgram,
        shader_src: &Vec<u8>,
    ) -> (r: Option<LocationTable<WebGlUniformLocation>>)
        ensures
            uniform_table_ok(r, shader_src@),
    {
        let kw = uniform_keyword();
        let names = scan_declarations(shader_src, &kw);
        let ghost names_v = names@.map_values(|n: Vec<u8>| n@);
        if names.len() == 0 {
            proof {
                assert(names_v.len() == 0);
            }
            return None;
        }
        let mut locs: Vec<Option<WebGlUniformLocation>> = Vec::new();
        let mut k: usize = 0;
        while k < names.len()
            invariant
                0 <= k <= names@.len(),
                locs@.len() == k,
            decreases names@.len() - k,
        {
            let loc = gl_get_uniform_location(gl, program, &names[k]);
            locs.push(loc);
            k += 1;
        }
        let ghost glocs = locs@;
        let table = build_table(&names, locs);
        proof {
            assert(glocs.len() == names_v.len() && table@ == table_map(names_v, glocs));
        }
        Some(table)
    }
}

} // verus!
