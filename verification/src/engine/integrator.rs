//! The walk of a ray through a scene, from bounce to bounce, until it
//! leaves the scene, is absorbed or has used up its depth.
use crate::engine::hittables::hittable::Hittable;
use crate::engine::materials::material::{Material, ScatterResult};
use crate::engine::ray::Ray;
use crate::scalar::{Scalar, INFINITY_BITS};
use crate::vectors::color::Color;
use crate::vectors::vector::Vector;
use vstd::prelude::*;

verus! {

/// The pattern of `0.001`, the lower end of every window: a ray that leaves
/// a surface must not hit that surface again at its own origin.
pub const BIAS_BITS: u64 = 0x3F50_624D_D2F1_A9FC;

/// How a walk ended.
#[derive(Clone, Copy, Debug)]
pub enum PathEnd {
    /// The depth was used up. The path carries no light.
    Truncated,
    /// The last surface absorbed the ray. The path carries no light.
    Absorbed,
    /// The last ray, which runs along `direction`, hit nothing. The path
    /// carries the light of the background in that direction.
    Escaped { direction: Vector },
}

/// The walk of one ray: the bounces in the order in which they happened,
/// and the end. The colour of the ray is the colour of the end, black or
/// background, times the attenuation of each bounce, the last bounce
/// first.
#[derive(Debug)]
pub struct Path {
    pub bounces: Vec<ScatterResult>,
    pub end: PathEnd,
}

/// The lower end of the window of every query.
pub open spec fn bias() -> Scalar {
    Scalar { bits: BIAS_BITS }
}

/// The ray that arrives at bounce `i`: the first ray for the first bounce,
/// and after that the ray that the bounce before sent on.
pub open spec fn incoming(bounces: Seq<ScatterResult>, first: Ray, i: int) -> Ray {
    if i <= 0 {
        first
    } else {
        bounces[i - 1].scattered
    }
}

/// Bounce `i` happened in `world`: the ray that arrived hit something
/// there, and the material of that surface could send it on as recorded.
pub open spec fn bounced<W: Hittable>(
    world: W,
    bounces: Seq<ScatterResult>,
    first: Ray,
    i: int,
) -> bool where W::Surface: Material {
    let ray = incoming(bounces, first, i);
    world.hit_spec(ray, bias(), Scalar::infinity()) matches Some(record)
        && record.material.may_scatter(ray, record, Some(bounces[i]))
}

/// The walk ended as `end` says, after the bounces given.
pub open spec fn ended<W: Hittable>(
    world: W,
    bounces: Seq<ScatterResult>,
    first: Ray,
    depth: usize,
    end: PathEnd,
) -> bool where W::Surface: Material {
    let ray = incoming(bounces, first, bounces.len() as int);
    match end {
        PathEnd::Truncated => bounces.len() == depth,
        PathEnd::Absorbed => bounces.len() < depth && (world.hit_spec(
            ray,
            bias(),
            Scalar::infinity(),
        ) matches Some(record) && record.material.may_scatter(ray, record, None)),
        PathEnd::Escaped { direction } => bounces.len() < depth && world.hit_spec(
            ray,
            bias(),
            Scalar::infinity(),
        ) is None && direction == ray.direction,
    }
}

impl Path {
    /// The path is a walk of `first` through `world` with at most `depth`
    /// bounces: every bounce happened there, one after the other, and the
    /// walk went on until the depth was used up, a surface absorbed the
    /// ray or the ray hit nothing.
    pub open spec fn walks<W: Hittable>(self, world: W, first: Ray, depth: usize) -> bool where
        W::Surface: Material,
    {
        &&& self.bounces@.len() <= depth
        &&& forall|i: int|
            0 <= i < self.bounces@.len() ==> #[trigger] bounced(world, self.bounces@, first, i)
        &&& ended(world, self.bounces@, first, depth, self.end)
    }

    /// How often a material was asked to scatter along the walk: once for
    /// every bounce, and once more where the last answer was to absorb.
    pub open spec fn scatter_evaluations(self) -> nat {
        if self.end is Absorbed {
            self.bounces@.len() + 1
        } else {
            self.bounces@.len()
        }
    }
}

/// Walks `ray` through `world`. At each step the ray is tested against the
/// world in the window from `0.001` to infinity. A ray that hits nothing
/// ends the walk in the background. A ray that hits is handed to the
/// material of the surface, which absorbs it or sends another ray on. After
/// `depth` bounces the walk is cut off.
pub fn trace<W: Hittable>(
    ray: &Ray,
    world: &W,
    depth: usize,
    source: &mut <W::Surface as Material>::Source,
) -> (path: Path) where W::Surface: Material
    ensures
        path.walks(*world, *ray, depth),
        depth == 0 ==> path.end is Truncated && path.bounces@.len() == 0,
        depth > 0 && world.hit_spec(*ray, bias(), Scalar::infinity()) is None ==> path.end
            == (PathEnd::Escaped { direction: ray.direction }) && path.bounces@.len() == 0,
        path.scatter_evaluations() <= depth,
{
    let t_min = Scalar::from_bits(BIAS_BITS);
    let t_max = Scalar::from_bits(INFINITY_BITS);
    let mut bounces: Vec<ScatterResult> = Vec::new();
    let mut current = *ray;
    let mut end = PathEnd::Truncated;
    let mut walking = true;
    while walking && bounces.len() < depth
        invariant
            t_min == bias(),
            t_max == Scalar::infinity(),
            bounces@.len() <= depth,
            current == incoming(bounces@, *ray, bounces@.len() as int),
            forall|i: int| 0 <= i < bounces@.len() ==> #[trigger] bounced(*world, bounces@, *ray, i),
            walking ==> end is Truncated,
            !walking ==> ended(*world, bounces@, *ray, depth, end) && !(end is Truncated),
        decreases depth - bounces@.len() + if walking { 1int } else { 0int },
    {
        match world.hit(&current, t_min, t_max) {
            Some(record) => {
                match record.material.scatter(&current, &record, source) {
                    Some(result) => {
                        proof {
                            let before = bounces@;
                            let after = before.push(result);
                            assert forall|i: int| 0 <= i < after.len() implies #[trigger] bounced(
                                *world,
                                after,
                                *ray,
                                i,
                            ) by {
                                assert(incoming(after, *ray, i) == incoming(before, *ray, i));
                                if i < before.len() {
                                    assert(bounced(*world, before, *ray, i));
                                    assert(after[i] == before[i]);
                                }
                            }
                        }
                        current = result.scattered;
                        bounces.push(result);
                    },
                    None => {
                        end = PathEnd::Absorbed;
                        walking = false;
                    },
                }
            },
            None => {
                end = PathEnd::Escaped { direction: current.direction };
                walking = false;
            },
        }
    }
    let path = Path { bounces, end };
    proof {
        if depth > 0 && world.hit_spec(*ray, bias(), Scalar::infinity()) is None {
            if path.bounces@.len() > 0 {
                assert(bounced(*world, path.bounces@, *ray, 0));
            }
        }
    }
    path
}

/// The light at the end of a walk is `light`: black where the walk was cut
/// off or the ray absorbed, and otherwise what `sky` gives for the
/// direction in which the last ray left.
pub open spec fn lit<S: Fn(Vector) -> Color>(sky: S, end: PathEnd, light: Color) -> bool {
    match end {
        PathEnd::Escaped { direction } => call_ensures(sky, (direction,), light),
        _ => light == Color::zeroes(),
    }
}

/// `color` is `light` seen through the bounces given: the light is
/// multiplied by the attenuation of the last bounce, the product by that
/// of the bounce before, and so on to the first, each time by one call of
/// `multiply` with the attenuation as its first argument.
pub open spec fn tinted<P: Fn(Color, Color) -> Color>(
    multiply: P,
    bounces: Seq<ScatterResult>,
    light: Color,
    color: Color,
) -> bool
    decreases bounces.len(),
{
    if bounces.len() == 0 {
        color == light
    } else {
        exists|inner: Color|
            #![trigger call_ensures(multiply, (bounces[0].attenuation, inner), color)]
            tinted(multiply, bounces.drop_first(), light, inner) && call_ensures(
                multiply,
                (bounces[0].attenuation, inner),
                color,
            )
    }
}

impl Path {
    /// `color` is the colour of the path: the light at its end, seen
    /// through its bounces.
    pub open spec fn colored<S: Fn(Vector) -> Color, P: Fn(Color, Color) -> Color>(
        self,
        sky: S,
        multiply: P,
        color: Color,
    ) -> bool {
        exists|light: Color| #[trigger]
            lit(sky, self.end, light) && tinted(multiply, self.bounces@, light, color)
    }

    /// The colour that the path carries. `sky` gives the light of the
    /// background in a direction and `multiply` the product of two colours,
    /// channel by channel.
    pub fn color<S: Fn(Vector) -> Color, P: Fn(Color, Color) -> Color>(
        &self,
        sky: S,
        multiply: P,
    ) -> (color: Color)
        requires
            forall|direction: Vector| call_requires(sky, (direction,)),
            forall|a: Color, b: Color| call_requires(multiply, (a, b)),
        ensures
            self.colored(sky, multiply, color),
    {
        let light = match self.end {
            PathEnd::Escaped { direction } => sky(direction),
            _ => Color::zeroes(),
        };
        let mut color = light;
        let mut i: usize = self.bounces.len();
        proof {
            assert(self.bounces@.subrange(i as int, self.bounces@.len() as int).len() == 0);
        }
        while i > 0
            invariant
                i <= self.bounces@.len(),
                forall|a: Color, b: Color| call_requires(multiply, (a, b)),
                tinted(
                    multiply,
                    self.bounces@.subrange(i as int, self.bounces@.len() as int),
                    light,
                    color,
                ),
            decreases i,
        {
            let ghost inner = color;
            i -= 1;
            color = multiply(self.bounces[i].attenuation, color);
            proof {
                let n = self.bounces@.len() as int;
                let tail = self.bounces@.subrange(i as int, n);
                assert(tail.drop_first() == self.bounces@.subrange(i + 1, n));
                assert(tail[0] == self.bounces@[i as int]);
                assert(call_ensures(multiply, (tail[0].attenuation, inner), color));
            }
        }
        proof {
            assert(self.bounces@.subrange(0, self.bounces@.len() as int) == self.bounces@);
            assert(lit(sky, self.end, light));
        }
        color
    }
}

/// The colour of `ray` in `world`: the ray is walked through the world for
/// at most `depth` bounces, and the light at the end of the walk is
/// multiplied by the attenuation of every bounce. `sky` gives the light of
/// the background in a direction and `multiply` the product of two
/// colours, channel by channel.
pub fn ray_color<W: Hittable, S: Fn(Vector) -> Color, P: Fn(Color, Color) -> Color>(
    ray: &Ray,
    world: &W,
    depth: usize,
    source: &mut <W::Surface as Material>::Source,
    sky: S,
    multiply: P,
) -> (color: Color) where W::Surface: Material
    requires
        forall|direction: Vector| call_requires(sky, (direction,)),
        forall|a: Color, b: Color| call_requires(multiply, (a, b)),
    ensures
        exists|path: Path| #[trigger]
            path.walks(*world, *ray, depth) && path.colored(sky, multiply, color),
        depth == 0 ==> color == Color::zeroes(),
        depth > 0 && world.hit_spec(*ray, bias(), Scalar::infinity()) is None ==> call_ensures(
            sky,
            (ray.direction,),
            color,
        ),
{
    let path = trace(ray, world, depth, source);
    path.color(sky, multiply)
}

/// A walk in which every ray hits and every surface sends the ray on asks
/// for a scattering exactly `depth` times, and then ends without light.
pub proof fn lemma_unbroken_walk_spends_depth<W: Hittable>(
    path: Path,
    world: W,
    first: Ray,
    depth: usize,
) where W::Surface: Material
    requires
        path.walks(world, first, depth),
        !(path.end is Escaped),
        !(path.end is Absorbed),
    ensures
        path.end is Truncated,
        path.bounces@.len() == depth,
        path.scatter_evaluations() == depth,
{
}

/// A walk never asks for more than `depth` scatterings.
pub proof fn lemma_walk_bounded<W: Hittable>(
    path: Path,
    world: W,
    first: Ray,
    depth: usize,
) where W::Surface: Material
    requires
        path.walks(world, first, depth),
    ensures
        path.scatter_evaluations() <= depth,
{
}

/// A ray that hits nothing takes no bounce, and its walk ends in the
/// background along the direction of the ray itself.
pub proof fn lemma_miss_sees_background<W: Hittable>(
    path: Path,
    world: W,
    first: Ray,
    depth: usize,
) where W::Surface: Material
    requires
        path.walks(world, first, depth),
        depth > 0,
        world.hit_spec(first, bias(), Scalar::infinity()) is None,
    ensures
        path.bounces@.len() == 0,
        path.end == (PathEnd::Escaped { direction: first.direction }),
{
    if path.bounces@.len() > 0 {
        assert(bounced(world, path.bounces@, first, 0));
    }
}

} // verus!
