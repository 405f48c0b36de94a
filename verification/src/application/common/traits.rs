pub mod uow;
