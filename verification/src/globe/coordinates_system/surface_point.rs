//! Grid coordinates and what is known of the surface point at each of them.

use vstd::prelude::*;
use crate::globe::territories::territory::TerritoryId;

verus! {

/// The index of a latitude of the grid.
pub type Latitude = i16;

/// The index of a longitude of the grid.
pub type Longitude = i16;

/// A cell of the grid: its latitude index and its longitude index.
pub type Coordinates = (Latitude, Longitude);

/// What a surface point knows of itself: where it lies in space, which cell of
/// the grid it is, and the territory that it belongs to, if any.
#[derive(Debug)]
pub struct SurfacePointMetadata<P> {
    pub cartesian: P,
    pub lat_long: Coordinates,
    pub territory_id: Option<TerritoryId>,
}

/// A point on the surface of the planet.
#[derive(Debug)]
pub struct SurfacePoint<P> {
    pub surface_point_metadata: SurfacePointMetadata<P>,
}

impl<P> SurfacePoint<P> {
    /// The coordinates of a surface point that has not been placed yet.
    pub fn get_blank_coordinates() -> (coordinates: Coordinates)
        ensures
            coordinates == (0i16, 0i16),
    {
        (0, 0)
    }

    /// The metadata of a surface point that has not been placed yet: it lies at
    /// `center`, on the blank coordinates, in no territory.
    pub fn get_blank_surface_point_metadata(center: P) -> (metadata: SurfacePointMetadata<P>)
        ensures
            metadata.cartesian == center,
            metadata.lat_long == (0i16, 0i16),
            metadata.territory_id is None,
    {
        SurfacePointMetadata {
            cartesian: center,
            lat_long: Self::get_blank_coordinates(),
            territory_id: None,
        }
    }

    /// A surface point that has not been placed yet.
    pub fn new(center: P) -> (point: Self)
        ensures
            point.surface_point_metadata.cartesian == center,
            point.surface_point_metadata.lat_long == (0i16, 0i16),
            point.surface_point_metadata.territory_id is None,
    {
        SurfacePoint { surface_point_metadata: Self::get_blank_surface_point_metadata(center) }
    }

    /// Replaces what the surface point knows of itself.
    pub fn set_surface_point_metadata(&mut self, surface_point_metadata: SurfacePointMetadata<P>)
        ensures
            final(self).surface_point_metadata == surface_point_metadata,
    {
        self.surface_point_metadata = surface_point_metadata;
    }

    /// What the surface point knows of itself.
    pub fn get_surface_point_metadata(&self) -> (metadata: &SurfacePointMetadata<P>)
        ensures
            *metadata == self.surface_point_metadata,
    {
        &self.surface_point_metadata
    }

    /// What the surface point knows of itself, to be changed in place.
    pub fn get_surface_point_metadata_mut(&mut self) -> (metadata: &mut SurfacePointMetadata<P>)
        ensures
            *metadata == old(self).surface_point_metadata,
            final(self).surface_point_metadata == *final(metadata),
    {
        &mut self.surface_point_metadata
    }
}

} // verus!
