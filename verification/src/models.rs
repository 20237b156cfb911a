//! View models for the entities the daemon manages: containers, images,
//! machines, networks and volumes, together with their display helpers.

mod container;
mod image;
mod machine;
mod network;
mod volume;

pub use container::ContainerState;
pub use container::ContainerViewModel;
pub use container::PortMapping;
pub use image::ImageViewModel;
pub use image::calculate_image_stats;
pub use machine::DistroInfo;
pub use machine::MachineState;
pub use machine::MachineViewModel;
pub use network::NetworkViewModel;
pub use volume::VolumeViewModel;
