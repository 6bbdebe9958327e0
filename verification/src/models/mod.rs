pub mod time;
pub mod task;
pub mod tags;
pub mod project;
pub mod user;
pub mod goal;
pub mod daily_todo;
pub mod reward;
pub mod task_tag;

pub use time::{CalendarDate, Timestamp};
pub use task::{Task, NewTask};
pub use project::{Project, NewProject, ProjectGoal};
pub use user::{User, NewUser};
pub use goal::{NewGoal, Goal};
pub use daily_todo::{DailyTodo, NewDailyTodo};
pub use reward::{Reward, NewReward};
pub use tags::{NewTag, Tag};
pub use task_tag::{NewTaskTag, TaskTag};
