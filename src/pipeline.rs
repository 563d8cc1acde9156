use vstd::prelude::*;
use crate::encoder::{encode, is_encoding, Run};
use crate::grid::{CoreError, PanelConfig, PixelGrid};
use crate::normalize::{fit_spec, normalize, Fit};
use crate::transport::{state_update_request, state_url_text, DeviceConfig, HttpMethod, Request};
use crate::command::state_command_text;

verus! {

/// Brightness used when none is given.
pub const DEFAULT_BRIGHTNESS: u8 = 100;

/// A validated configuration for one invocation.
#[derive(Clone, Debug)]
pub struct Settings {
    pub device: DeviceConfig,
    pub panel: PanelConfig,
    pub on: bool,
    pub brightness: u8,
}

impl Settings {
    pub open spec fn valid(&self) -> bool {
        self.device.address@.len() > 0 && self.panel.valid()
    }

    /// Validates the options an invocation was given. The address and both
    /// panel dimensions are required; the panel must be valid; brightness
    /// defaults to `DEFAULT_BRIGHTNESS` and the on-state to on.
    pub fn from_options(
        brightness: Option<u8>,
        on: Option<bool>,
        address: Option<String>,
        width: Option<u32>,
        height: Option<u32>,
        crop: bool,
    ) -> (r: Result<Settings, CoreError>)
        ensures
            match r {
                Ok(s) => {
                    &&& s.valid()
                    &&& address is Some && s.device.address@ == address->Some_0@
                    &&& width == Some(s.panel.width) && height == Some(s.panel.height)
                    &&& s.panel.crop_on_aspect_mismatch == crop
                    &&& s.on == (match on {
                        Some(b) => b,
                        None => true,
                    })
                    &&& s.brightness == (match brightness {
                        Some(b) => b,
                        None => DEFAULT_BRIGHTNESS,
                    })
                },
                Err(e) => {
                    &&& (address is None || address->Some_0@.len() == 0) ==> e
                        == CoreError::MissingAddress
                    &&& (address is Some && address->Some_0@.len() > 0) ==> (if width is None
                        || height is None {
                        e == CoreError::MissingDimensions
                    } else {
                        e == CoreError::InvalidInput && !(PanelConfig {
                            width: width->Some_0,
                            height: height->Some_0,
                            crop_on_aspect_mismatch: crop,
                        }).valid()
                    })
                },
            },
    {
        let address = match address {
            Some(a) => a,
            None => return Err(CoreError::MissingAddress),
        };
        if address.as_str().is_empty() {
            return Err(CoreError::MissingAddress);
        }
        let (w, h) = match (width, height) {
            (Some(w), Some(h)) => (w, h),
            _ => return Err(CoreError::MissingDimensions),
        };
        let panel = match PanelConfig::new(w, h, crop) {
            Ok(p) => p,
            Err(e) => return Err(e),
        };
        let on = match on {
            Some(b) => b,
            None => true,
        };
        let brightness = match brightness {
            Some(b) => b,
            None => DEFAULT_BRIGHTNESS,
        };
        Ok(Settings { device: DeviceConfig { address }, panel, on, brightness })
    }
}

/// The state update for a grid that already has the panel's size: encodes it
/// into runs and renders them with the configured on-state and brightness. A
/// grid without pixels is rejected.
pub fn update_request_for(grid: &PixelGrid, settings: &Settings) -> (r: Result<Request, CoreError>)
    requires
        grid.wf(),
    ensures
        match r {
            Ok(req) => {
                &&& grid.pixel_count() > 0
                &&& req.method == HttpMethod::Post
                &&& req.url@ == state_url_text(settings.device.address@)
                &&& req.body is Some
                &&& exists|runs: Seq<Run>|
                    #[trigger] is_encoding(runs, grid.colors()) && req.body->Some_0@
                        == state_command_text(settings.on, settings.brightness, runs)
            },
            Err(e) => grid.pixel_count() == 0 && e == CoreError::InvalidInput,
        },
{
    let runs = match encode(grid) {
        Ok(runs) => runs,
        Err(e) => return Err(e),
    };
    let req = state_update_request(&settings.device, settings.on, settings.brightness, &runs);
    assert(is_encoding(runs@, grid.colors()));
    Ok(req)
}

/// Runs the whole core pipeline on a loaded image: fits it to the panel,
/// encodes the result into runs and renders the state update for the device.
/// The fitted grid has the panel's size, and is the image itself when the
/// sizes already agree.
pub fn prepare_update(image: PixelGrid, settings: &Settings) -> (r: Request)
    requires
        image.wf(),
        settings.panel.valid(),
    ensures
        r.method == HttpMethod::Post,
        r.url@ == state_url_text(settings.device.address@),
        r.body is Some,
        exists|grid: PixelGrid, runs: Seq<Run>|
            #![trigger is_encoding(runs, grid.colors())]
            {
                &&& grid.wf()
                &&& grid.width == settings.panel.width
                &&& grid.height == settings.panel.height
                &&& fit_spec(image.width, image.height, settings.panel) == Fit::Keep ==> grid.data@
                    == image.data@
                &&& is_encoding(runs, grid.colors())
                &&& r.body->Some_0@ == state_command_text(settings.on, settings.brightness, runs)
            },
{
    let grid = normalize(image, &settings.panel);
    proof {
        let (w, h) = (settings.panel.width, settings.panel.height);
        assert(w * h > 0) by (nonlinear_arith)
            requires
                w > 0,
                h > 0,
        ;
    }
    match update_request_for(&grid, settings) {
        Ok(req) => {
            proof {
                let runs = choose|runs: Seq<Run>|
                    #[trigger] is_encoding(runs, grid.colors()) && req.body->Some_0@
                        == state_command_text(settings.on, settings.brightness, runs);
                assert(is_encoding(runs, grid.colors()));
            }
            req
        },
        Err(_) => {
            proof {
                assert(false);
            }
            state_update_request(&settings.device, settings.on, settings.brightness, &Vec::new())
        },
    }
}

} // verus!
