use gambit::stockfish_build::{command_display, BuildStep, StockfishArch, StockfishBuilder};

fn describe(step: &BuildStep) -> String {
    match step {
        BuildStep::ReadZip { path } => format!("read {path}"),
        BuildStep::DownloadZip { url, path } => format!("download {url} to {path}"),
        BuildStep::ExtractZip { into_dir, repo_dir } => format!("extract into {into_dir} ({repo_dir})"),
        BuildStep::Run { program, args } => format!("run {program} {}", args.join(" ")),
    }
}

#[test]
fn builder_paths() {
    let b = StockfishBuilder::new();
    assert_eq!(b.zip_p, "target/stockfish/sf_15.zip");
    assert_eq!(b.repo_dir_p, "target/stockfish/Stockfish-sf_15");
    assert_eq!(b.bin_p, "target/stockfish/Stockfish-sf_15/src/stockfish");
}

#[test]
fn nothing_to_do_when_the_executable_exists() {
    let b = StockfishBuilder::new();
    assert!(b.run(true, false, false, StockfishArch::X86_64, Some(8)).is_empty());
}

#[test]
fn download_extract_and_build() {
    let b = StockfishBuilder::new();
    let plan: Vec<String> = b.run(false, false, false, StockfishArch::X86_64, Some(8)).iter().map(describe).collect();
    assert_eq!(
        plan,
        vec![
            "download https://github.com/official-stockfish/Stockfish/archive/refs/tags/sf_15.zip to target/stockfish/sf_15.zip",
            "extract into target/stockfish (target/stockfish/Stockfish-sf_15)",
            "run make -C target/stockfish/Stockfish-sf_15/src net build ARCH=x86-x64 -j 4",
            "run make -C target/stockfish/Stockfish-sf_15/src strip",
        ]
    );
}

#[test]
fn archive_on_disk_is_read() {
    let b = StockfishBuilder::new();
    let plan: Vec<String> =
        b.run(false, false, true, StockfishArch::AppleSilicon, Some(1)).iter().map(describe).collect();
    assert_eq!(
        plan,
        vec![
            "read target/stockfish/sf_15.zip",
            "extract into target/stockfish (target/stockfish/Stockfish-sf_15)",
            "run make -C target/stockfish/Stockfish-sf_15/src net build ARCH=apple-silicon -j 1",
            "run make -C target/stockfish/Stockfish-sf_15/src strip",
        ]
    );
}

#[test]
fn sources_present_only_build() {
    let b = StockfishBuilder::new();
    let plan: Vec<String> = b.run(false, true, true, StockfishArch::X86_64, None).iter().map(describe).collect();
    assert_eq!(
        plan,
        vec![
            "run make -C target/stockfish/Stockfish-sf_15/src net build ARCH=x86-x64",
            "run make -C target/stockfish/Stockfish-sf_15/src strip",
        ]
    );
}

#[test]
fn command_lines_are_escaped() {
    let args: Vec<String> = ["-C", "a dir", "it's", "", "wow!", "x=1,y/z+.-_"].iter().map(|s| s.to_string()).collect();
    assert_eq!(command_display("make", &args, true), r#"make -C 'a dir' 'it'\''s' '' 'wow'\!'' x=1,y/z+.-_"#);
    assert_eq!(command_display("make", &Vec::new(), true), "make");
    let args: Vec<String> = ["-C", "a dir", "", "x=1"].iter().map(|s| s.to_string()).collect();
    assert_eq!(command_display("make", &args, false), r#"make -C "a dir" "" x=1"#);
}
