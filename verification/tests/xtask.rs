use zcore::xtask::{make_jobs, opencv_build_steps, opencv_make_jobs, Arch, LinuxRootfs, OpencvSteps, MAX_MAKE_JOBS};

const HEAD: &str = "set(CMAKE_SYSTEM_NAME      \"Linux\")
set(CMAKE_SYSTEM_PROCESSOR \"aarch64\")

set(CMAKE_C_COMPILER   aarch64-linux-musl-gcc)
set(CMAKE_CXX_COMPILER aarch64-linux-musl-g++)

set(CMAKE_C_FLAGS   \"\" CACHE STRING \"\")
set(CMAKE_CXX_FLAGS \"\" CACHE STRING \"\")

set(CMAKE_C_FLAGS   \"${CMAKE_C_FLAGS}   ${CMAKE_PASS_TEST_FLAGS}\")
set(CMAKE_CXX_FLAGS \"${CMAKE_CXX_FLAGS} ${CMAKE_PASS_TEST_FLAGS}\")";

#[test]
fn opencv_cmake_without_ffmpeg() {
    let rootfs = LinuxRootfs(Arch::Aarch64);
    assert_eq!(rootfs.opencv_cmake(None), HEAD);
}

#[test]
fn opencv_cmake_with_ffmpeg() {
    let rootfs = LinuxRootfs(Arch::Aarch64);
    let dir = "/build/aarch64/ffmpeg/install/lib";
    let expected = format!(
        "{HEAD}\n\nset(CMAKE_LD_FFMPEG_FLAGS  \"-Wl,-rpath-link,{}\")\nset(CMAKE_EXE_LINKER_FLAGS \"${{CMAKE_EXE_LINKER_FLAGS}} ${{CMAKE_LD_FFMPEG_FLAGS}}\")",
        dir
    );
    assert_eq!(rootfs.opencv_cmake(Some(dir)), expected);
}

#[test]
fn opencv_steps() {
    assert_eq!(opencv_build_steps(false, false), OpencvSteps { cmake: true, install: true });
    assert_eq!(opencv_build_steps(false, true), OpencvSteps { cmake: true, install: true });
    assert_eq!(opencv_build_steps(true, false), OpencvSteps { cmake: false, install: true });
    assert_eq!(opencv_build_steps(true, true), OpencvSteps { cmake: false, install: false });
}

#[test]
fn make_jobs_capped_at_eight() {
    assert_eq!(make_jobs(1), 1);
    assert_eq!(make_jobs(7), 7);
    assert_eq!(make_jobs(8), 8);
    assert_eq!(make_jobs(64), MAX_MAKE_JOBS);
    let j = opencv_make_jobs();
    assert!((1..=MAX_MAKE_JOBS).contains(&j));
}
