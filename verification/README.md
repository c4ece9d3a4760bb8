# gizmo_hydro

The verified core of a meshless finite-mass hydrodynamics code, with its arithmetic around
it.

A particle code of this kind is made of two things. One is arithmetic on floating-point
numbers: kernels, moments, fluxes, kicks. The other is everything that this arithmetic is
steered by: which neighbors a particle has and in which order they are visited, which
estimate of an interface is accepted and which comes next, which timestep is the shortest
and how it is put on an integer timeline, which phase of a hierarchical step may follow
which, which inputs are refused and with which error. The library in `src/` is the second
part. Every item of it is verified by Verus.

Numbers cross the border as bit patterns. `Binary64` is a double-precision number as its
64 bits, with the comparisons, the classes, the extrema and the truncation of such numbers
defined on the pattern. A function of the library takes the numbers that a decision rests
on and says in its contract what it decides for each of them; the loops that only steer are
state machines that are told each new number.

## Layout

- `src/` the library
  - `binary64`, `order`, `fault`, `message` numbers, sorting, ordered checks, wordings
  - `ticks`, `individual_timeline`, `synchronized_timeline` the integer timelines
  - `neighbors_1d`, `cell_list_2d`, `pairs`, `incidence`, `tree_seeds` searches, pair
    lists and the tree of seeds
  - `kernel`, `columns_1d`, `smoothing`, `estimates`, `extremes` density estimates, their
    adaptive supports and limited slopes
  - `riemann`, `entropic`, `timestep`, `kdk` interfaces and steps on a line
  - `meshless_2d`, `hydro_evolution_2d`, `hierarchy_2d`, `batches` the plane and the
    hierarchy of steps
  - `mhd`, `mhd_2d`, `mhd_evolution` magnetized gas
  - `grain` drag between gas and grains
- `app/` the arithmetic around the library, and the rendering of its errors
- `tests/` tests of the library; where a test needs whole fluxes or steps, its file holds
  the arithmetic that a caller does around the library

The functions named `law_..` state what holds of several functions together.
