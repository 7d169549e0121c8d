//! Presentation parameters and the life cycle of the rendering device.

use vstd::prelude::*;

verus! {

/// Client width of the main window, in logical pixels.
pub const WINDOW_WIDTH: i32 = 1280;

/// Client height of the main window, in logical pixels.
pub const WINDOW_HEIGHT: i32 = 800;

/// Colour the render target is cleared to at the start of every frame.
pub const BACKGROUND_COLOR: u32 = 0;

/// Pixel layout of the back buffer.
#[derive(Clone, Copy, Debug, PartialEq, Eq)]
pub enum ColorFormat {
    /// 16 bits per pixel: five red, six green, five blue.
    Rgb565,
    /// 32 bits per pixel, eight per channel, the top byte unused.
    Xrgb8888,
}

/// What happens to the back buffer's contents when it is presented.
#[derive(Clone, Copy, Debug, PartialEq, Eq)]
pub enum SwapEffect {
    /// The contents are not retained between presents.
    Discard,
    /// The buffers rotate and keep their contents.
    Flip,
    /// The back buffer is copied to the front and keeps its contents.
    Blit,
}

/// Ordinal of the display adapter that the system treats as its default.
pub const DEFAULT_ADAPTER: u32 = 0;

/// How the device rasterizes.
#[derive(Clone, Copy, Debug, PartialEq, Eq)]
pub enum DeviceType {
    /// In hardware, through the hardware abstraction layer.
    Hal,
    /// In the reference software rasterizer.
    Reference,
    /// In a pluggable software rasterizer.
    Software,
}

/// Where vertices are transformed.
#[derive(Clone, Copy, Debug, PartialEq, Eq)]
pub enum VertexProcessing {
    /// On the CPU: works on every adapter.
    Software,
    /// On the adapter's own vertex pipeline.
    Hardware,
}

/// The configuration a device is created with. It is consumed once, by device
/// creation, and never changed afterwards.
#[derive(Clone, Copy, Debug, PartialEq, Eq)]
pub struct PresentationParameters {
    /// Ordinal of the display adapter the device is created on.
    pub adapter: u32,
    pub device_type: DeviceType,
    pub back_buffer_width: u32,
    pub back_buffer_height: u32,
    pub back_buffer_count: u32,
    pub back_buffer_format: ColorFormat,
    /// Samples per pixel; zero means no multisampling.
    pub multisample_count: u32,
    pub multisample_quality: u32,
    pub swap_effect: SwapEffect,
    pub windowed: bool,
    pub auto_depth_stencil: bool,
    pub flags: u32,
    /// Refresh rate in hertz; zero leaves the choice to the device.
    pub refresh_rate: u32,
    /// Presents per vertical blank; zero leaves the choice to the device.
    pub presentation_interval: u32,
    pub vertex_processing: VertexProcessing,
}

/// Why no device came into being.
#[derive(Clone, Copy, Debug, PartialEq, Eq)]
pub enum DeviceCreationError {
    /// A requested dimension was zero or negative; nothing was attempted.
    InvalidDimensions,
    /// The graphics adapter object could not be obtained.
    AdapterUnavailable,
    /// The adapter refused to create a device with the requested parameters.
    DeviceRefused,
}

/// What the platform reports after it was asked to create a device.
#[derive(Clone, Copy, Debug, PartialEq, Eq)]
pub enum CreationReport {
    AdapterUnavailable,
    DeviceRefused,
    Created,
}

/// One call on the rendering device.
#[derive(Clone, Copy, Debug, PartialEq, Eq)]
pub enum DeviceCommand {
    ClearTarget { color: u32 },
    BeginScene,
    EndScene,
    Present,
}

/// A created device, as far as the frame loop knows it: the parameters its
/// back buffer was made with.
#[derive(Clone, Copy, Debug, PartialEq, Eq)]
pub struct DeviceContext {
    pub parameters: PresentationParameters,
}

/// The parameters for a windowed surface of the given size: a hardware device
/// on the default adapter, one 16-bit back
/// buffer that is discarded on present, no multisampling, no depth buffer,
/// software vertex processing, default refresh rate and interval.
pub open spec fn windowed_parameters(width: int, height: int) -> PresentationParameters {
    PresentationParameters {
        adapter: DEFAULT_ADAPTER,
        device_type: DeviceType::Hal,
        back_buffer_width: width as u32,
        back_buffer_height: height as u32,
        back_buffer_count: 1,
        back_buffer_format: ColorFormat::Rgb565,
        multisample_count: 0,
        multisample_quality: 0,
        swap_effect: SwapEffect::Discard,
        windowed: true,
        auto_depth_stencil: false,
        flags: 0,
        refresh_rate: 0,
        presentation_interval: 0,
        vertex_processing: VertexProcessing::Software,
    }
}

/// The outcome of planning a device for a surface of the given size.
pub open spec fn planned(width: int, height: int) -> Result<
    PresentationParameters,
    DeviceCreationError,
> {
    if width <= 0 || height <= 0 {
        Err(DeviceCreationError::InvalidDimensions)
    } else {
        Ok(windowed_parameters(width, height))
    }
}

/// The outcome of device creation, given what the platform reported.
pub open spec fn completed(parameters: PresentationParameters, report: CreationReport) -> Result<
    DeviceContext,
    DeviceCreationError,
> {
    match report {
        CreationReport::AdapterUnavailable => Err(DeviceCreationError::AdapterUnavailable),
        CreationReport::DeviceRefused => Err(DeviceCreationError::DeviceRefused),
        CreationReport::Created => Ok(DeviceContext { parameters }),
    }
}

/// Chooses the presentation parameters for a surface of `width` by `height`
/// pixels. A dimension that is not positive is refused here, before the
/// platform is asked for anything.
pub fn plan_device(width: i32, height: i32) -> (result: Result<
    PresentationParameters,
    DeviceCreationError,
>)
    ensures
        result == planned(width as int, height as int),
{
    if width <= 0 || height <= 0 {
        return Err(DeviceCreationError::InvalidDimensions);
    }
    Ok(
        PresentationParameters {
            adapter: DEFAULT_ADAPTER,
            device_type: DeviceType::Hal,
            back_buffer_width: width as u32,
            back_buffer_height: height as u32,
            back_buffer_count: 1,
            back_buffer_format: ColorFormat::Rgb565,
            multisample_count: 0,
            multisample_quality: 0,
            swap_effect: SwapEffect::Discard,
            windowed: true,
            auto_depth_stencil: false,
            flags: 0,
            refresh_rate: 0,
            presentation_interval: 0,
            vertex_processing: VertexProcessing::Software,
        },
    )
}

/// Turns the platform's report on a creation attempt into a device or into the
/// error that ends start-up. There is no retry and no second set of
/// parameters.
pub fn complete_device(parameters: PresentationParameters, report: CreationReport) -> (result:
    Result<DeviceContext, DeviceCreationError>)
    ensures
        result == completed(parameters, report),
{
    match report {
        CreationReport::AdapterUnavailable => Err(DeviceCreationError::AdapterUnavailable),
        CreationReport::DeviceRefused => Err(DeviceCreationError::DeviceRefused),
        CreationReport::Created => Ok(DeviceContext { parameters }),
    }
}

impl DeviceContext {
    /// Width and height of the back buffer, in pixels.
    pub fn back_buffer_size(&self) -> (size: (u32, u32))
        ensures
            size == (self.parameters.back_buffer_width, self.parameters.back_buffer_height),
    {
        (self.parameters.back_buffer_width, self.parameters.back_buffer_height)
    }

    /// The device calls that open a frame: clear the target to the background
    /// colour, then begin the scene.
    pub fn begin_frame(&self) -> (commands: Vec<DeviceCommand>)
        ensures
            commands@ == opening_commands(),
    {
        let mut commands: Vec<DeviceCommand> = Vec::new();
        commands.push(DeviceCommand::ClearTarget { color: BACKGROUND_COLOR });
        commands.push(DeviceCommand::BeginScene);
        assert(commands@ =~= opening_commands());
        commands
    }

    /// The device calls that close a frame: end the scene, then present the
    /// back buffer.
    pub fn end_frame(&self) -> (commands: Vec<DeviceCommand>)
        ensures
            commands@ == closing_commands(),
    {
        let mut commands: Vec<DeviceCommand> = Vec::new();
        commands.push(DeviceCommand::EndScene);
        commands.push(DeviceCommand::Present);
        assert(commands@ =~= closing_commands());
        commands
    }
}

/// The device calls at the start of a frame, in order.
pub open spec fn opening_commands() -> Seq<DeviceCommand> {
    seq![DeviceCommand::ClearTarget { color: BACKGROUND_COLOR }, DeviceCommand::BeginScene]
}

/// The device calls at the end of a frame, in order.
pub open spec fn closing_commands() -> Seq<DeviceCommand> {
    seq![DeviceCommand::EndScene, DeviceCommand::Present]
}

/// A device made for a surface of positive size has a back buffer of exactly
/// that size, and a surface with a dimension that is not positive gets no
/// parameters at all, whatever the platform would have reported.
pub proof fn lemma_back_buffer_matches_request(width: i32, height: i32, report: CreationReport)
    ensures
        width <= 0 || height <= 0 ==> planned(width as int, height as int) == Err::<
            PresentationParameters,
            DeviceCreationError,
        >(DeviceCreationError::InvalidDimensions),
        width > 0 && height > 0 ==> planned(width as int, height as int) is Ok,
        width > 0 && height > 0 && report == CreationReport::Created ==> {
            let device = completed(planned(width as int, height as int)->Ok_0, report);
            &&& device is Ok
            &&& device->Ok_0.parameters.back_buffer_width == width
            &&& device->Ok_0.parameters.back_buffer_height == height
            &&& device->Ok_0.parameters.windowed
            &&& device->Ok_0.parameters.swap_effect == SwapEffect::Discard
            &&& device->Ok_0.parameters.adapter == DEFAULT_ADAPTER
            &&& device->Ok_0.parameters.device_type == DeviceType::Hal
            &&& device->Ok_0.parameters.vertex_processing == VertexProcessing::Software
        },
{
}

} // verus!
