pub mod amqp_definition;
