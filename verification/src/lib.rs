//! Procedural meshes: flat triangle lists of vertices and normals, the
//! primitives that build them and the transforms that act on them.
//!
//! A shape is a list of vertices and a list of normals of the same length,
//! read three by three as triangles that share nothing. Primitives
//! ([`shapes::Triangle`], [`shapes::Quad`], [`shapes::Cube`],
//! [`shapes::Tetrahedron`], [`shapes::Icosahedron`], [`shapes::Sphere`]) make
//! shapes, [`shapes::combine_shapes`] joins them, and every shape can be
//! turned, moved, scaled, subdivided and projected onto a sphere through
//! [`shape3d::Shape3D`].
//!
//! # Scalars
//!
//! The library is generic in the number type of its coordinates, a
//! [`scalar::Scalar`]. It never computes with numbers itself: it hands them
//! to the operations of the scalar type and puts the results where they
//! belong. A program picks the arithmetic, single-precision floating point
//! as a rule.
//!
//! # Contracts
//!
//! What a function returns is stated over the model of a shape,
//! [`mesh::Mesh`], by relations. A relation named `is_x(.., r)` says that `r`
//! is a result that the formula `x` may have in the arithmetic at hand; the
//! relation `x_steps` beside it names every value that the formula passes
//! through, and `is_x` holds if there are such values. Nothing is assumed of
//! the arithmetic, so the contracts hold whether it rounds or not.
//!
//! Two kinds of law go beyond the contracts. Those that count triangles hold
//! of every arithmetic and stand beside the relations they are about. Those
//! that need numbers to behave like numbers hold of every arithmetic that is
//! exact, and stand in [`laws`].
pub mod scalar;
pub mod point_transform3d;
pub mod vertex3d;
pub mod normal3d;
pub mod mesh;
pub mod rigid;
pub mod subdivide;
pub mod spherify;
pub mod shape3d;
pub mod shapes;
pub mod mt_transform3d;
pub mod exact;
pub mod laws;
pub mod graphics_loader;
