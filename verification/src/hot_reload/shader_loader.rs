//! Runtime shader compilation: where a shader's source and output live, the
//! compiler's arguments, and what each outcome reports.
use crate::text_util::concat_str;
use vstd::prelude::*;

verus! {

/// The outcome of compiling one shader.
#[derive(Debug)]
pub struct ShaderCompileResult {
    pub success: bool,
    pub wgsl_source: Option<String>,
    pub error: Option<String>,
}

/// Compiles shaders found in a directory.
pub struct ShaderLoader {
    shaders_dir: String,
}

impl ShaderLoader {
    pub closed spec fn spec_dir(&self) -> Seq<char> {
        self.shaders_dir@
    }

    pub fn new(shaders_dir: &str) -> (r: Self)
        ensures
            r.spec_dir() == shaders_dir@,
    {
        ShaderLoader { shaders_dir: String::from_str(shaders_dir) }
    }

    /// `<dir>/<name>.slang`.
    pub fn input_path(&self, shader_name: &str) -> (r: String)
        ensures
            r@ == self.spec_dir() + "/"@ + shader_name@ + ".slang"@,
    {
        let mut path = self.shaders_dir.clone();
        path.append("/");
        path.append(shader_name);
        path.append(".slang");
        path
    }

    /// `/tmp/<name>.wgsl`.
    pub fn output_path(shader_name: &str) -> (r: String)
        ensures
            r@ == "/tmp/"@ + shader_name@ + ".wgsl"@,
    {
        let mut path = String::from_str("/tmp/");
        path.append(shader_name);
        path.append(".wgsl");
        path
    }

    /// The compiler arguments: the source, the WGSL profile and target, the
    /// output, and the vertex and fragment entry points.
    pub fn slangc_args(&self, shader_name: &str) -> (r: Vec<String>)
        ensures
            r@.len() == 11,
            r@[0]@ == self.spec_dir() + "/"@ + shader_name@ + ".slang"@,
            r@[1]@ == "-profile"@,
            r@[2]@ == "wgsl"@,
            r@[3]@ == "-target"@,
            r@[4]@ == "wgsl"@,
            r@[5]@ == "-o"@,
            r@[6]@ == "/tmp/"@ + shader_name@ + ".wgsl"@,
            r@[7]@ == "-entry"@,
            r@[8]@ == "vs_main"@,
            r@[9]@ == "-entry"@,
            r@[10]@ == "fs_main"@,
    {
        let mut args: Vec<String> = Vec::new();
        args.push(self.input_path(shader_name));
        args.push(String::from_str("-profile"));
        args.push(String::from_str("wgsl"));
        args.push(String::from_str("-target"));
        args.push(String::from_str("wgsl"));
        args.push(String::from_str("-o"));
        args.push(ShaderLoader::output_path(shader_name));
        args.push(String::from_str("-entry"));
        args.push(String::from_str("vs_main"));
        args.push(String::from_str("-entry"));
        args.push(String::from_str("fs_main"));
        args
    }
}

pub open spec fn opt_string(o: Option<String>) -> Option<Seq<char>> {
    match o {
        Some(s) => Some(s@),
        None => None,
    }
}

impl ShaderCompileResult {
    fn failure(message: String) -> (r: Self)
        ensures
            !r.success,
            r.wgsl_source is None,
            opt_string(r.error) == Some(message@),
    {
        ShaderCompileResult { success: false, wgsl_source: None, error: Some(message) }
    }

    /// The source file does not exist.
    pub fn source_not_found(input_path: &str) -> (r: Self)
        ensures
            !r.success,
            r.wgsl_source is None,
            opt_string(r.error) == Some("Shader source not found: "@ + input_path@),
    {
        ShaderCompileResult::failure(concat_str("Shader source not found: ", input_path))
    }

    /// The compiler could not be started.
    pub fn compiler_not_run(error: &str) -> (r: Self)
        ensures
            !r.success,
            r.wgsl_source is None,
            opt_string(r.error) == Some("Failed to run slangc: "@ + error@),
    {
        ShaderCompileResult::failure(concat_str("Failed to run slangc: ", error))
    }

    /// The compiler reported an error on `stderr`.
    pub fn compile_failed(stderr: &str) -> (r: Self)
        ensures
            !r.success,
            r.wgsl_source is None,
            opt_string(r.error) == Some("Shader compilation failed:\n"@ + stderr@),
    {
        ShaderCompileResult::failure(concat_str("Shader compilation failed:\n", stderr))
    }

    /// The compiled shader could not be read back.
    pub fn output_unreadable(error: &str) -> (r: Self)
        ensures
            !r.success,
            r.wgsl_source is None,
            opt_string(r.error) == Some("Failed to read compiled shader: "@ + error@),
    {
        ShaderCompileResult::failure(concat_str("Failed to read compiled shader: ", error))
    }

    /// The compiled WGSL source.
    pub fn compiled(wgsl: String) -> (r: Self)
        ensures
            r.success,
            opt_string(r.wgsl_source) == Some(wgsl@),
            r.error is None,
    {
        ShaderCompileResult { success: true, wgsl_source: Some(wgsl), error: None }
    }

    /// The WGSL source to load, or the error to report: the compiler's error
    /// (a generic one when it gave none) after a failure, and a complaint
    /// when a success produced no source.
    pub fn into_wgsl(self) -> (r: Result<String, String>)
        ensures
            !self.success ==> match self.error {
                Some(e) => r matches Err(m) && m@ == e@,
                None => r matches Err(m) && m@ == "Unknown compilation error"@,
            },
            self.success ==> match self.wgsl_source {
                Some(w) => r matches Ok(s) && s@ == w@,
                None => r matches Err(m) && m@ == "No WGSL source produced"@,
            },
    {
        if !self.success {
            return match self.error {
                Some(e) => Err(e),
                None => Err(String::from_str("Unknown compilation error")),
            };
        }
        match self.wgsl_source {
            Some(w) => Ok(w),
            None => Err(String::from_str("No WGSL source produced")),
        }
    }
}

} // verus!
