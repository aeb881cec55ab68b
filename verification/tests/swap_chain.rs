use femtovg_wgpu::geometry::Size;
use femtovg_wgpu::states::TextureFormat;
use femtovg_wgpu::swap_chain::{sc_desc, PresentMode, SwapChainSpec, WGPUSwapChain};

#[test]
fn swap_chain_description() {
    assert_eq!(
        sc_desc(TextureFormat::Bgra8Unorm, Size::new(800, 600)),
        SwapChainSpec { format: TextureFormat::Bgra8Unorm, width: 800, height: 600, present_mode: PresentMode::Fifo }
    );
}

#[test]
fn swap_chain_is_bgra_and_resizes() {
    let create = |d: SwapChainSpec| d;
    let mut sc = WGPUSwapChain::new(Size::new(10, 20), &create);
    assert_eq!(sc.format(), TextureFormat::Bgra8Unorm);
    assert_eq!(sc.inner().width, 10);
    sc.resize(Size::new(30, 40), &create);
    assert_eq!(*sc.inner(), sc_desc(TextureFormat::Bgra8Unorm, Size::new(30, 40)));
}
