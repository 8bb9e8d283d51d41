//! Decisions of the OpenCV cross-build for the Linux root file system: the
//! CMake toolchain file, which build steps to run, and how many parallel
//! make jobs to use. Running the tools and touching the file system is left
//! to the caller.

use vstd::prelude::*;
use vstd::string::*;

verus! {

/// A target architecture.
#[derive(Debug, Clone, Copy, PartialEq, Eq, Structural)]
pub enum Arch {
    Riscv64,
    X86_64,
    Aarch64,
}

/// The Linux root file system built for one architecture.
pub struct LinuxRootfs(pub Arch);

/// The part of the OpenCV CMake toolchain file that does not depend on FFmpeg.
pub const OPENCV_CMAKE_HEAD: &'static str = "\
set(CMAKE_SYSTEM_NAME      \"Linux\")
set(CMAKE_SYSTEM_PROCESSOR \"aarch64\")

set(CMAKE_C_COMPILER   aarch64-linux-musl-gcc)
set(CMAKE_CXX_COMPILER aarch64-linux-musl-g++)

set(CMAKE_C_FLAGS   \"\" CACHE STRING \"\")
set(CMAKE_CXX_FLAGS \"\" CACHE STRING \"\")

set(CMAKE_C_FLAGS   \"${CMAKE_C_FLAGS}   ${CMAKE_PASS_TEST_FLAGS}\")
set(CMAKE_CXX_FLAGS \"${CMAKE_CXX_FLAGS} ${CMAKE_PASS_TEST_FLAGS}\")";

/// The text that precedes the FFmpeg library directory in the toolchain file.
pub const FFMPEG_RPATH_PREFIX: &'static str = "\n\nset(CMAKE_LD_FFMPEG_FLAGS  \"-Wl,-rpath-link,";

/// The text that follows the FFmpeg library directory in the toolchain file.
pub const FFMPEG_RPATH_SUFFIX: &'static str = "\")\nset(CMAKE_EXE_LINKER_FLAGS \"${CMAKE_EXE_LINKER_FLAGS} ${CMAKE_LD_FFMPEG_FLAGS}\")";

/// The toolchain file: the common head and, where an FFmpeg build with
/// library directory `ffmpeg_lib` exists, the linker flags that let OpenCV
/// link against it.
pub open spec fn opencv_cmake_text(ffmpeg_lib: Option<Seq<char>>) -> Seq<char> {
    match ffmpeg_lib {
        Some(dir) => OPENCV_CMAKE_HEAD@ + FFMPEG_RPATH_PREFIX@ + dir + FFMPEG_RPATH_SUFFIX@,
        None => OPENCV_CMAKE_HEAD@,
    }
}

/// The view of an optional directory name.
pub open spec fn opt_view(dir: Option<&str>) -> Option<Seq<char>> {
    match dir {
        Some(d) => Some(d@),
        None => None,
    }
}

impl LinuxRootfs {
    /// Builds a CMake toolchain file for the OpenCV build. `ffmpeg_lib` is
    /// the canonical path of the FFmpeg library directory, where there is one.
    pub fn opencv_cmake(&self, ffmpeg_lib: Option<&str>) -> (text: String)
        requires
            self.0 == Arch::Aarch64,
        ensures
            text@ == opencv_cmake_text(opt_view(ffmpeg_lib)),
    {
        let mut text = String::from_str(OPENCV_CMAKE_HEAD);
        match ffmpeg_lib {
            Some(dir) => {
                text.append(FFMPEG_RPATH_PREFIX);
                text.append(dir);
                text.append(FFMPEG_RPATH_SUFFIX);
            },
            None => {},
        }
        text
    }
}

/// The steps of the OpenCV build that have to run.
#[derive(Debug, Clone, Copy, PartialEq, Eq, Structural)]
pub struct OpencvSteps {
    /// Run CMake: the build directory has no Makefile yet.
    pub cmake: bool,
    /// Run `make install`: CMake ran, or nothing has been installed yet.
    pub install: bool,
}

/// Which build steps run, given whether the build directory holds a
/// Makefile and whether the install directory exists. A CMake run is
/// always followed by an install.
pub fn opencv_build_steps(makefile_exists: bool, install_dir_exists: bool) -> (steps: OpencvSteps)
    ensures
        steps.cmake == !makefile_exists,
        steps.install == (steps.cmake || !install_dir_exists),
        steps.cmake ==> steps.install,
{
    let cmake = !makefile_exists;
    OpencvSteps { cmake, install: cmake || !install_dir_exists }
}

/// The most make jobs the OpenCV build runs at once, so that it does not run
/// out of memory.
pub const MAX_MAKE_JOBS: usize = 8;

/// Asks `num_cpus::get` for the number of logical CPUs available to this
/// process. Claimed of the outside code, as its documentation states: the
/// count is at least one. The count itself depends on the machine.
#[verifier::external_body]
fn available_cpus() -> (n: usize)
    ensures
        n >= 1,
{
    num_cpus::get()
}

/// The number of make jobs for `cpus` available CPUs: one per CPU, at most
/// `MAX_MAKE_JOBS`.
pub fn make_jobs(cpus: usize) -> (jobs: usize)
    ensures
        jobs == if cpus < MAX_MAKE_JOBS {
            cpus
        } else {
            MAX_MAKE_JOBS
        },
{
    if cpus < MAX_MAKE_JOBS {
        cpus
    } else {
        MAX_MAKE_JOBS
    }
}

/// The number of make jobs for the OpenCV build on this machine: between
/// one and `MAX_MAKE_JOBS`.
pub fn opencv_make_jobs() -> (jobs: usize)
    ensures
        1 <= jobs <= MAX_MAKE_JOBS,
{
    make_jobs(available_cpus())
}

} // verus!
