//! A scene: the things on screen, kept in the order in which they were
//! added, updated together and painted together.
//!
//! What can be on screen is known in advance, so an entry is one of a fixed
//! set of kinds rather than anything that happens to know how to paint itself.

use vstd::prelude::*;
use crate::geometry::Color;
use crate::pong::ball::{Ball, BallModel};
use crate::pong::board::{divider, Board};
use crate::pong::constants::{PADDLE_HEIGHT, PADDLE_WIDTH};
use crate::pong::input::FrameInput;
use crate::pong::paddle::{Paddle, PaddleModel};
use crate::shapes::{RectangleModel, Shape};

verus! {

/// One entry of a scene.
pub enum Entity {
    Ball(Ball),
    Paddle(Paddle),
    Board(Board),
}

/// What an entry is, as plain values.
pub enum EntityModel {
    Ball(BallModel),
    Paddle(PaddleModel),
    Board,
}

impl EntityModel {
    /// The entry one tick later: a ball advances, a paddle is steered, the
    /// board stays as it is.
    pub open spec fn updated(self, input: FrameInput) -> EntityModel {
        match self {
            EntityModel::Ball(ball) => EntityModel::Ball(ball.advanced()),
            EntityModel::Paddle(paddle) => EntityModel::Paddle(paddle.steered(input)),
            EntityModel::Board => EntityModel::Board,
        }
    }

    /// Whether `shape` is what this entry looks like: a circle at the ball's
    /// centre with its radius and colour, the paddle's rectangle, or the
    /// divider.
    pub open spec fn painted_as(self, shape: Shape) -> bool {
        match self {
            EntityModel::Ball(ball) => shape matches Shape::Circle(circle) && circle.center.x
                == ball.x && circle.center.y == ball.y && circle.radius == ball.radius
                && circle.color == ball.color,
            EntityModel::Paddle(paddle) => shape matches Shape::Rectangle(rect) && rect@ == (
            RectangleModel {
                left: paddle.x,
                top: paddle.y,
                width: PADDLE_WIDTH as int,
                height: PADDLE_HEIGHT as int,
                color: Color { r: 255, g: 255, b: 255 },
            }),
            EntityModel::Board => shape matches Shape::Rectangle(rect) && rect@ == divider(),
        }
    }
}

impl View for Entity {
    type V = EntityModel;

    open spec fn view(&self) -> EntityModel {
        match self {
            Entity::Ball(ball) => EntityModel::Ball(ball@),
            Entity::Paddle(paddle) => EntityModel::Paddle(paddle@),
            Entity::Board(_) => EntityModel::Board,
        }
    }
}

impl Entity {
    /// Advances this entry by one tick.
    pub fn update(&mut self, input: &FrameInput)
        ensures
            final(self)@ == old(self)@.updated(*input),
    {
        match self {
            Entity::Ball(ball) => ball.update(),
            Entity::Paddle(paddle) => paddle.update(input),
            Entity::Board(board) => board.update(input),
        }
    }

    /// The shape to paint for this entry.
    pub fn draw(&self) -> (shape: Shape)
        ensures
            self@.painted_as(shape),
    {
        match self {
            Entity::Ball(ball) => Shape::Circle(ball.draw()),
            Entity::Paddle(paddle) => Shape::Rectangle(paddle.draw()),
            Entity::Board(board) => Shape::Rectangle(board.draw()),
        }
    }
}

/// The entries of a scene after one tick: each one updated, none added,
/// none dropped, the order kept.
pub open spec fn all_updated(entries: Seq<EntityModel>, input: FrameInput) -> Seq<EntityModel> {
    Seq::new(entries.len(), |i: int| entries[i].updated(input))
}

/// An ordered collection of entries.
pub struct Scene {
    objects: Vec<Entity>,
}

impl View for Scene {
    type V = Seq<EntityModel>;

    closed spec fn view(&self) -> Seq<EntityModel> {
        Seq::new(self.objects@.len(), |i: int| self.objects@[i]@)
    }
}

impl Scene {
    /// A scene with nothing in it.
    pub fn new() -> (scene: Scene)
        ensures
            scene@ == Seq::<EntityModel>::empty(),
    {
        Scene { objects: Vec::new() }
    }

    /// Puts `obj` behind the entries already there.
    pub fn add(&mut self, obj: Entity)
        ensures
            final(self)@ == old(self)@.push(obj@),
    {
        self.objects.push(obj);
    }

    /// Takes out the entry at `index`; those behind it move up by one.
    pub fn remove(&mut self, index: usize)
        requires
            index < old(self)@.len(),
        ensures
            final(self)@ == old(self)@.remove(index as int),
    {
        self.objects.remove(index);
    }

    /// How many entries the scene has.
    pub fn len(&self) -> (n: usize)
        ensures
            n == self@.len(),
    {
        self.objects.len()
    }

    /// Advances every entry by one tick, in order.
    pub fn update(&mut self, input: &FrameInput)
        ensures
            final(self)@ == all_updated(old(self)@, *input),
    {
        let n: usize = self.objects.len();
        let mut i: usize = 0;
        while i < n
            invariant
                i <= n,
                n == self.objects@.len(),
                n == old(self).objects@.len(),
                forall|k: int| 0 <= k < i ==> self.objects@[k]@ == old(self).objects@[k]@.updated(*input),
                forall|k: int| i <= k < n ==> self.objects@[k]@ == old(self).objects@[k]@,
            decreases n - i,
        {
            self.objects[i].update(input);
            i += 1;
        }
    }

    /// The shapes to paint, one for each entry and in the same order.
    pub fn draw(&self) -> (shapes: Vec<Shape>)
        ensures
            shapes@.len() == self@.len(),
            forall|k: int| 0 <= k < self@.len() ==> (#[trigger] self@[k]).painted_as(shapes@[k]),
    {
        let n: usize = self.objects.len();
        let mut shapes: Vec<Shape> = Vec::new();
        let mut i: usize = 0;
        while i < n
            invariant
                i <= n,
                n == self.objects@.len(),
                shapes@.len() == i,
                forall|k: int| 0 <= k < i ==> (#[trigger] self.objects@[k]@).painted_as(shapes@[k]),
            decreases n - i,
        {
            shapes.push(self.objects[i].draw());
            i += 1;
        }
        shapes
    }
}

} // verus!
