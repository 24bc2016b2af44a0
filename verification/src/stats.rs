//! Counters of one frame.

use vstd::prelude::*;

verus! {

#[derive(Debug)]
pub struct RenderStats {
    /// Rays traced against the scene.
    pub rays_cast: u32,
    /// Rays that struck a cube or the floor.
    pub hits: u32,
    /// Rays that struck nothing.
    pub misses: u32,
    pub objects_tested: u32,
}

/// One more on a counter, which stops at the largest value it can hold.
pub open spec fn counted(counter: u32) -> u32 {
    if counter < u32::MAX {
        (counter + 1) as u32
    } else {
        counter
    }
}

fn count(counter: u32) -> (next: u32)
    ensures
        next == counted(counter),
{
    if counter < u32::MAX {
        counter + 1
    } else {
        counter
    }
}

impl Default for RenderStats {
    fn default() -> (stats: Self)
        ensures
            stats.is_zero(),
    {
        RenderStats { rays_cast: 0, hits: 0, misses: 0, objects_tested: 0 }
    }
}

impl RenderStats {
    pub open spec fn is_zero(&self) -> bool {
        self.rays_cast == 0 && self.hits == 0 && self.misses == 0 && self.objects_tested == 0
    }

    pub fn new() -> (stats: RenderStats)
        ensures
            stats.is_zero(),
    {
        RenderStats { rays_cast: 0, hits: 0, misses: 0, objects_tested: 0 }
    }

    /// Counts one ray that was traced against the scene. A cube that
    /// became the nearest hit counts as a hit, and so does the floor where
    /// it was nearer still; a ray that struck neither is a miss.
    pub fn record_ray(&mut self, cube_struck: bool, floor_struck: bool)
        ensures
            final(self).rays_cast == counted(old(self).rays_cast),
            final(self).hits == (if cube_struck && floor_struck {
                counted(counted(old(self).hits))
            } else if cube_struck || floor_struck {
                counted(old(self).hits)
            } else {
                old(self).hits
            }),
            final(self).misses == (if cube_struck || floor_struck {
                old(self).misses
            } else {
                counted(old(self).misses)
            }),
            final(self).objects_tested == old(self).objects_tested,
    {
        self.rays_cast = count(self.rays_cast);
        if cube_struck {
            self.hits = count(self.hits);
        }
        if floor_struck {
            self.hits = count(self.hits);
        }
        if !cube_struck && !floor_struck {
            self.misses = count(self.misses);
        }
    }

    /// Sets every counter back to zero.
    pub fn reset(&mut self)
        ensures
            final(self).is_zero(),
    {
        self.rays_cast = 0;
        self.hits = 0;
        self.misses = 0;
        self.objects_tested = 0;
    }
}

} // verus!
