use mux::run_with_mux::RunWithMuxOpts;

#[test]
fn run_with_mux_opts_defaults() {
    let opts: RunWithMuxOpts<(i32, i32)> = RunWithMuxOpts::default();
    assert!(opts.class.is_none(), "class default must be None");
    assert!(opts.position.is_none(), "position default must be None");
}
