//! Bookkeeping of the device context: what is asked of the backend when the
//! context is set up, the swap-chain description it keeps, and the errors it
//! reports. The backend handles themselves live with the caller.

use vstd::prelude::*;

verus! {

/// Pixel formats used by the renderer.
#[derive(Clone, Copy, Debug, PartialEq, Eq, Structural)]
pub enum TextureFormat {
    /// 8-bit BGRA, sRGB-encoded: the swap chain's format.
    Bgra8UnormSrgb,
    /// 8-bit RGBA, sRGB-encoded: the placeholder texture's format.
    Rgba8UnormSrgb,
}

/// How a texture is used.
#[derive(Clone, Copy, Debug, PartialEq, Eq, Structural)]
pub enum TextureUsage {
    /// Target of a render pass that is presented afterwards.
    OutputAttachment,
    /// Sampled by shaders and filled by copies.
    SampledCopyDst,
}

/// How finished frames reach the display.
#[derive(Clone, Copy, Debug, PartialEq, Eq, Structural)]
pub enum PresentMode {
    Immediate,
    /// Low latency, presenting never blocks.
    Mailbox,
    Fifo,
}

/// Which adapter the backend is asked to prefer.
#[derive(Clone, Copy, Debug, PartialEq, Eq, Structural)]
pub enum PowerPreference {
    Default,
    LowPower,
    HighPerformance,
}

/// Description of a swap chain: always replaced as a whole, never patched.
#[derive(Clone, Copy, Debug, PartialEq, Eq, Structural)]
pub struct SwapChainDescriptor {
    pub usage: TextureUsage,
    pub format: TextureFormat,
    pub width: u32,
    pub height: u32,
    pub present_mode: PresentMode,
}

/// What is asked of the backend when an adapter is requested.
#[derive(Clone, Copy, Debug, PartialEq, Eq, Structural)]
pub struct RequestAdapterOptions {
    pub power_preference: PowerPreference,
    /// Whether the adapter must be able to present to the window's surface.
    pub compatible_surface: bool,
}

/// Resource limits asked of a device.
#[derive(Clone, Copy, Debug, PartialEq, Eq, Structural)]
pub enum Limits {
    /// The backend's default limits.
    Default,
}

/// What is asked of the backend when a device is requested.
#[derive(Clone, Copy, Debug, PartialEq, Eq, Structural)]
pub struct DeviceDescriptor {
    /// Feature bits to enable.
    pub features: u64,
    pub limits: Limits,
    pub shader_validation: bool,
}

/// The backend's refusal to hand out a device.
#[derive(Clone, Copy, Debug, PartialEq, Eq, Structural)]
pub struct RequestDeviceError;

/// The backend's reasons for not handing out the next frame.
#[derive(Clone, Copy, Debug, PartialEq, Eq, Structural)]
pub enum SwapChainError {
    /// The frame did not become free in time.
    Timeout,
    /// The surface has changed; the swap chain must be rebuilt.
    Outdated,
    /// The swap chain is lost.
    Lost,
    /// No memory is left for a new frame.
    OutOfMemory,
}

/// How acquiring adapter and device ended.
#[derive(Clone, Copy, Debug, PartialEq, Eq, Structural)]
pub enum Acquisition {
    /// The backend has no adapter that fits the request.
    NoAdapter,
    /// The backend refused the device.
    DeviceRejected(RequestDeviceError),
    /// Device and queue are there.
    Ready,
}

/// Errors of the device context.
#[derive(Clone, Copy, Debug, PartialEq, Eq, Structural)]
pub enum GpuContextError {
    RequestAdapterError,
    RequestDeviceError(RequestDeviceError),
    SwapChainError(SwapChainError),
}

/// Feature bits the renderer cannot do without: none so far.
pub const REQUIRED_FEATURES: u64 = 0;

/// The swap chain description for a surface of the given size.
pub open spec fn swap_chain_for(width: u32, height: u32) -> SwapChainDescriptor {
    SwapChainDescriptor {
        usage: TextureUsage::OutputAttachment,
        format: TextureFormat::Bgra8UnormSrgb,
        width,
        height,
        present_mode: PresentMode::Mailbox,
    }
}

/// The text of an error: a fixed sentence, which ends in the name of the
/// backend's error where the error carries one.
pub open spec fn error_text(error: GpuContextError) -> Seq<char> {
    match error {
        GpuContextError::RequestAdapterError => "Adapter request failed! `wgpu` returned `None`."@,
        GpuContextError::RequestDeviceError(_) =>
            "Device request failed! `wgpu` error is: RequestDeviceError"@,
        GpuContextError::SwapChainError(SwapChainError::Timeout) =>
            "Swap chain operation failed! `wgpu` error is: Timeout"@,
        GpuContextError::SwapChainError(SwapChainError::Outdated) =>
            "Swap chain operation failed! `wgpu` error is: Outdated"@,
        GpuContextError::SwapChainError(SwapChainError::Lost) =>
            "Swap chain operation failed! `wgpu` error is: Lost"@,
        GpuContextError::SwapChainError(SwapChainError::OutOfMemory) =>
            "Swap chain operation failed! `wgpu` error is: OutOfMemory"@,
    }
}

impl GpuContextError {
    /// The message shown for this error.
    pub fn message(&self) -> (text: String)
        ensures
            text@ == error_text(*self),
    {
        match self {
            GpuContextError::RequestAdapterError => {
                "Adapter request failed! `wgpu` returned `None`.".to_owned()
            },
            GpuContextError::RequestDeviceError(_) => {
                "Device request failed! `wgpu` error is: RequestDeviceError".to_owned()
            },
            GpuContextError::SwapChainError(SwapChainError::Timeout) => {
                "Swap chain operation failed! `wgpu` error is: Timeout".to_owned()
            },
            GpuContextError::SwapChainError(SwapChainError::Outdated) => {
                "Swap chain operation failed! `wgpu` error is: Outdated".to_owned()
            },
            GpuContextError::SwapChainError(SwapChainError::Lost) => {
                "Swap chain operation failed! `wgpu` error is: Lost".to_owned()
            },
            GpuContextError::SwapChainError(SwapChainError::OutOfMemory) => {
                "Swap chain operation failed! `wgpu` error is: OutOfMemory".to_owned()
            },
        }
    }
}

/// The device context's own state: the description of its current swap chain.
#[derive(Clone, Copy, Debug, PartialEq, Eq)]
pub struct GpuContext {
    swap_chain_desc: SwapChainDescriptor,
}

impl GpuContext {
    /// The description of the current swap chain.
    pub closed spec fn view(&self) -> SwapChainDescriptor {
        self.swap_chain_desc
    }

    /// The adapter request: the fastest adapter that can present to the surface.
    pub fn adapter_options() -> (options: RequestAdapterOptions)
        ensures
            options == (RequestAdapterOptions {
                power_preference: PowerPreference::HighPerformance,
                compatible_surface: true,
            }),
    {
        RequestAdapterOptions { power_preference: PowerPreference::HighPerformance, compatible_surface: true }
    }

    /// The device request for an adapter with the given feature bits: the
    /// required features that the adapter has, default limits, shader
    /// validation on.
    pub fn device_descriptor(adapter_features: u64) -> (descriptor: DeviceDescriptor)
        ensures
            descriptor == (DeviceDescriptor {
                features: adapter_features & REQUIRED_FEATURES,
                limits: Limits::Default,
                shader_validation: true,
            }),
            descriptor.features == 0,
    {
        assert(adapter_features & 0 == 0) by (bit_vector);
        DeviceDescriptor {
            features: adapter_features & REQUIRED_FEATURES,
            limits: Limits::Default,
            shader_validation: true,
        }
    }

    /// Sets the context up for a window of the given physical size, once
    /// adapter and device have been asked for. A missing adapter and a
    /// refused device are reported as errors of their own; otherwise the
    /// context starts with a swap chain of the window's size.
    pub fn create(width: u32, height: u32, acquisition: Acquisition) -> (created: Result<
        GpuContext,
        GpuContextError,
    >)
        ensures
            match acquisition {
                Acquisition::NoAdapter => created == Err::<GpuContext, GpuContextError>(
                    GpuContextError::RequestAdapterError,
                ),
                Acquisition::DeviceRejected(detail) => created == Err::<GpuContext, GpuContextError>(
                    GpuContextError::RequestDeviceError(detail),
                ),
                Acquisition::Ready => created is Ok && created->Ok_0@ == swap_chain_for(width, height),
            },
    {
        match acquisition {
            Acquisition::NoAdapter => Err(GpuContextError::RequestAdapterError),
            Acquisition::DeviceRejected(detail) => Err(GpuContextError::RequestDeviceError(detail)),
            Acquisition::Ready => Ok(
                GpuContext {
                    swap_chain_desc: SwapChainDescriptor {
                        usage: TextureUsage::OutputAttachment,
                        format: TextureFormat::Bgra8UnormSrgb,
                        width,
                        height,
                        present_mode: PresentMode::Mailbox,
                    },
                },
            ),
        }
    }

    /// Takes the new size; the swap chain is to be rebuilt from the
    /// description, which otherwise stays as it was.
    pub fn resize(&mut self, width: u32, height: u32)
        ensures
            final(self)@ == (SwapChainDescriptor { width, height, ..old(self)@ }),
    {
        self.swap_chain_desc.width = width;
        self.swap_chain_desc.height = height;
    }

    /// The description from which the swap chain is built.
    pub fn swap_chain_descriptor(&self) -> (descriptor: SwapChainDescriptor)
        ensures
            descriptor == self@,
    {
        self.swap_chain_desc
    }

    /// Reports how acquiring the next frame ended: a backend failure
    /// becomes a swap-chain error with the backend's text.
    pub fn get_next_frame(&mut self, acquired: Result<(), SwapChainError>) -> (frame: Result<(), GpuContextError>)
        ensures
            final(self)@ == old(self)@,
            match acquired {
                Ok(_) => frame is Ok,
                Err(detail) => frame == Err::<(), GpuContextError>(GpuContextError::SwapChainError(detail)),
            },
    {
        match acquired {
            Ok(_) => Ok(()),
            Err(detail) => Err(GpuContextError::SwapChainError(detail)),
        }
    }

    /// Width and height of the current swap chain.
    pub fn size(&self) -> (size: (u32, u32))
        ensures
            size == (self@.width, self@.height),
    {
        (self.swap_chain_desc.width, self.swap_chain_desc.height)
    }
}

/// A missing adapter and a refused device are told apart: setting up
/// fails with an error that names which of the two happened, and only
/// then.
pub proof fn lemma_setup_errors_differ(refusal: RequestDeviceError)
    ensures
        GpuContextError::RequestAdapterError != GpuContextError::RequestDeviceError(refusal),
        error_text(GpuContextError::RequestAdapterError) != error_text(
            GpuContextError::RequestDeviceError(refusal),
        ),
{
    reveal_strlit("Adapter request failed! `wgpu` returned `None`.");
    reveal_strlit("Device request failed! `wgpu` error is: RequestDeviceError");
    assert("Adapter request failed! `wgpu` returned `None`."@[0] == 'A');
    assert("Device request failed! `wgpu` error is: RequestDeviceError"@[0] == 'D');
}

} // verus!
