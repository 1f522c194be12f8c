use vstd::prelude::*;

verus! {

/// One build target of a release.
#[derive(Clone, Copy, Debug)]
pub struct MatrixEntry {
    pub os: &'static str,
    pub target: &'static str,
    pub binary_name: &'static str,
    pub binary_path: &'static str,
    pub cross: &'static str,
}

/// A build target as plain values.
pub struct Target {
    pub os: Seq<char>,
    pub target: Seq<char>,
    pub binary_name: Seq<char>,
    pub binary_path: Seq<char>,
    pub cross: Seq<char>,
}

impl View for MatrixEntry {
    type V = Target;

    open spec fn view(&self) -> Target {
        Target {
            os: self.os@,
            target: self.target@,
            binary_name: self.binary_name@,
            binary_path: self.binary_path@,
            cross: self.cross@,
        }
    }
}

/// The build targets of a release.
#[derive(Debug)]
pub struct ReleaseMatrix(pub Vec<MatrixEntry>);

/// Build targets as plain values.
pub open spec fn targets(entries: Seq<MatrixEntry>) -> Seq<Target> {
    entries.map_values(|e: MatrixEntry| e@)
}

/// The targets that are released, in order.
pub open spec fn release_targets() -> Seq<Target> {
    seq![
        Target {
            os: "ubuntu-latest"@,
            target: "x86_64-unknown-linux-musl"@,
            binary_name: "paws-x86_64-unknown-linux-musl"@,
            binary_path: "target/x86_64-unknown-linux-musl/release/paws"@,
            cross: "true"@,
        },
        Target {
            os: "ubuntu-latest"@,
            target: "aarch64-unknown-linux-musl"@,
            binary_name: "paws-aarch64-unknown-linux-musl"@,
            binary_path: "target/aarch64-unknown-linux-musl/release/paws"@,
            cross: "true"@,
        },
        Target {
            os: "ubuntu-latest"@,
            target: "x86_64-unknown-linux-gnu"@,
            binary_name: "paws-x86_64-unknown-linux-gnu"@,
            binary_path: "target/x86_64-unknown-linux-gnu/release/paws"@,
            cross: "false"@,
        },
        Target {
            os: "ubuntu-latest"@,
            target: "aarch64-unknown-linux-gnu"@,
            binary_name: "paws-aarch64-unknown-linux-gnu"@,
            binary_path: "target/aarch64-unknown-linux-gnu/release/paws"@,
            cross: "true"@,
        },
        Target {
            os: "macos-latest"@,
            target: "x86_64-apple-darwin"@,
            binary_name: "paws-x86_64-apple-darwin"@,
            binary_path: "target/x86_64-apple-darwin/release/paws"@,
            cross: "false"@,
        },
        Target {
            os: "macos-latest"@,
            target: "aarch64-apple-darwin"@,
            binary_name: "paws-aarch64-apple-darwin"@,
            binary_path: "target/aarch64-apple-darwin/release/paws"@,
            cross: "false"@,
        },
        Target {
            os: "windows-latest"@,
            target: "x86_64-pc-windows-msvc"@,
            binary_name: "paws-x86_64-pc-windows-msvc.exe"@,
            binary_path: "target/x86_64-pc-windows-msvc/release/paws.exe"@,
            cross: "false"@,
        },
        Target {
            os: "windows-latest"@,
            target: "aarch64-pc-windows-msvc"@,
            binary_name: "paws-aarch64-pc-windows-msvc.exe"@,
            binary_path: "target/aarch64-pc-windows-msvc/release/paws.exe"@,
            cross: "false"@,
        },
        Target {
            os: "ubuntu-latest"@,
            target: "aarch64-linux-android"@,
            binary_name: "paws-aarch64-linux-android"@,
            binary_path: "target/aarch64-linux-android/release/paws"@,
            cross: "true"@,
        },
    ]
}

impl ReleaseMatrix {
    /// The targets that are released: see [`release_targets`].
    pub fn new() -> (out: ReleaseMatrix)
        ensures
            targets(out.0@) == release_targets(),
    {
        let mut entries: Vec<MatrixEntry> = Vec::new();
        entries.push(
            MatrixEntry {
                os: "ubuntu-latest",
                target: "x86_64-unknown-linux-musl",
                binary_name: "paws-x86_64-unknown-linux-musl",
                binary_path: "target/x86_64-unknown-linux-musl/release/paws",
                cross: "true",
            },
        );
        entries.push(
            MatrixEntry {
                os: "ubuntu-latest",
                target: "aarch64-unknown-linux-musl",
                binary_name: "paws-aarch64-unknown-linux-musl",
                binary_path: "target/aarch64-unknown-linux-musl/release/paws",
                cross: "true",
            },
        );
        entries.push(
            MatrixEntry {
                os: "ubuntu-latest",
                target: "x86_64-unknown-linux-gnu",
                binary_name: "paws-x86_64-unknown-linux-gnu",
                binary_path: "target/x86_64-unknown-linux-gnu/release/paws",
                cross: "false",
            },
        );
        entries.push(
            MatrixEntry {
                os: "ubuntu-latest",
                target: "aarch64-unknown-linux-gnu",
                binary_name: "paws-aarch64-unknown-linux-gnu",
                binary_path: "target/aarch64-unknown-linux-gnu/release/paws",
                cross: "true",
            },
        );
        entries.push(
            MatrixEntry {
                os: "macos-latest",
                target: "x86_64-apple-darwin",
                binary_name: "paws-x86_64-apple-darwin",
                binary_path: "target/x86_64-apple-darwin/release/paws",
                cross: "false",
            },
        );
        entries.push(
            MatrixEntry {
                os: "macos-latest",
                target: "aarch64-apple-darwin",
                binary_name: "paws-aarch64-apple-darwin",
                binary_path: "target/aarch64-apple-darwin/release/paws",
                cross: "false",
            },
        );
        entries.push(
            MatrixEntry {
                os: "windows-latest",
                target: "x86_64-pc-windows-msvc",
                binary_name: "paws-x86_64-pc-windows-msvc.exe",
                binary_path: "target/x86_64-pc-windows-msvc/release/paws.exe",
                cross: "false",
            },
        );
        entries.push(
            MatrixEntry {
                os: "windows-latest",
                target: "aarch64-pc-windows-msvc",
                binary_name: "paws-aarch64-pc-windows-msvc.exe",
                binary_path: "target/aarch64-pc-windows-msvc/release/paws.exe",
                cross: "false",
            },
        );
        entries.push(
            MatrixEntry {
                os: "ubuntu-latest",
                target: "aarch64-linux-android",
                binary_name: "paws-aarch64-linux-android",
                binary_path: "target/aarch64-linux-android/release/paws",
                cross: "true",
            },
        );
        assert(targets(entries@) =~= release_targets());
        ReleaseMatrix(entries)
    }

    /// A copy of the targets, in order.
    pub fn entries(&self) -> (out: Vec<MatrixEntry>)
        ensures
            out@ == self.0@,
    {
        let mut out: Vec<MatrixEntry> = Vec::new();
        let mut i: usize = 0;
        while i < self.0.len()
            invariant
                i <= self.0@.len(),
                out@ == self.0@.take(i as int),
            decreases self.0@.len() - i,
        {
            out.push(self.0[i]);
            i += 1;
            assert(out@ =~= self.0@.take(i as int));
        }
        assert(self.0@.take(self.0@.len() as int) =~= self.0@);
        out
    }
}

impl Default for ReleaseMatrix {
    fn default() -> (out: ReleaseMatrix)
        ensures
            targets(out.0@) == release_targets(),
    {
        ReleaseMatrix::new()
    }
}

} // verus!
